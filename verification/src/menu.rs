//! The menu model: the static tree the application builds once at
//! startup.
//!
//! The native menu resources belong to the host environment; this module
//! holds the shape that the host is asked to realise — one `File`
//! submenu containing, in order, an enabled import item, a separator and
//! a quit item — and proves that the builder yields exactly that shape,
//! so that building it is idempotent per process: any two trees the
//! builder can yield are equal.

use vstd::prelude::*;
use vstd::string::StringExecFns;

verus! {

/// One entry of a submenu.
pub enum MenuEntry {
    /// An application-defined item: stable id, display label, enabled
    /// flag. Activating it is routed by the dispatcher.
    Action { id: String, label: String, enabled: bool },
    /// A visual separator; never activated.
    Separator,
    /// The predefined quit item; the host handles it natively.
    Quit,
}

/// The mathematical value of a [`MenuEntry`].
pub enum MenuEntryView {
    Action { id: Seq<char>, label: Seq<char>, enabled: bool },
    Separator,
    Quit,
}

impl View for MenuEntry {
    type V = MenuEntryView;

    open spec fn view(&self) -> MenuEntryView {
        match self {
            MenuEntry::Action { id, label, enabled } => MenuEntryView::Action {
                id: id@,
                label: label@,
                enabled: *enabled,
            },
            MenuEntry::Separator => MenuEntryView::Separator,
            MenuEntry::Quit => MenuEntryView::Quit,
        }
    }
}

/// A labelled group of entries, shown as one top-level menu.
pub struct Submenu {
    pub label: String,
    pub enabled: bool,
    pub entries: Vec<MenuEntry>,
}

/// The mathematical value of a [`Submenu`].
#[verifier::ext_equal]
pub struct SubmenuView {
    pub label: Seq<char>,
    pub enabled: bool,
    pub entries: Seq<MenuEntryView>,
}

impl View for Submenu {
    type V = SubmenuView;

    open spec fn view(&self) -> SubmenuView {
        SubmenuView {
            label: self.label@,
            enabled: self.enabled,
            entries: self.entries@.map_values(|e: MenuEntry| e@),
        }
    }
}

/// The whole menu tree: an ordered list of top-level submenus.
pub struct Menu {
    pub submenus: Vec<Submenu>,
}

impl View for Menu {
    type V = Seq<SubmenuView>;

    open spec fn view(&self) -> Seq<SubmenuView> {
        self.submenus@.map_values(|s: Submenu| s@)
    }
}

/// The action id of an entry, if it has one.
pub open spec fn entry_action_id(e: MenuEntryView) -> Option<Seq<char>> {
    match e {
        MenuEntryView::Action { id, .. } => Some(id),
        MenuEntryView::Separator => None,
        MenuEntryView::Quit => None,
    }
}

/// Whether some action entry of the tree carries the id `id`.
pub open spec fn menu_has_action_id(m: Seq<SubmenuView>, id: Seq<char>) -> bool {
    exists|i: int, j: int|
        0 <= i < m.len() && 0 <= j < m[i].entries.len() && entry_action_id(m[i].entries[j])
            == Some(id)
}

/// The `File` submenu as the application declares it: enabled, holding
/// exactly the import item, a separator and the quit item, in that
/// order.
pub open spec fn standard_file_submenu(s: SubmenuView) -> bool {
    &&& s.label == "File"@
    &&& s.enabled
    &&& s.entries.len() == 3
    &&& s.entries[0] == (MenuEntryView::Action {
        id: "import_csv"@,
        label: "Import CSV..."@,
        enabled: true,
    })
    &&& s.entries[1] == MenuEntryView::Separator
    &&& s.entries[2] == MenuEntryView::Quit
}

/// The menu tree the application declares: exactly one top-level `File`
/// submenu of the standard shape.
pub open spec fn standard_menu(m: Seq<SubmenuView>) -> bool {
    m.len() == 1 && standard_file_submenu(m[0])
}

/// Builds the application's menu tree.
pub fn build_menu() -> (m: Menu)
    ensures
        standard_menu(m@),
{
    let import_item = MenuEntry::Action {
        id: String::from_str("import_csv"),
        label: String::from_str("Import CSV..."),
        enabled: true,
    };
    let mut entries: Vec<MenuEntry> = Vec::new();
    entries.push(import_item);
    entries.push(MenuEntry::Separator);
    entries.push(MenuEntry::Quit);
    let file_menu = Submenu { label: String::from_str("File"), enabled: true, entries };
    let mut submenus: Vec<Submenu> = Vec::new();
    submenus.push(file_menu);
    Menu { submenus }
}

/// The standard shape determines the tree: any two menu values of the
/// standard shape are equal. Hence constructing the menu is idempotent
/// per process — however often the builder were run, it could only ever
/// yield this one tree.
pub proof fn lemma_standard_menu_unique(m1: Seq<SubmenuView>, m2: Seq<SubmenuView>)
    requires
        standard_menu(m1),
        standard_menu(m2),
    ensures
        m1 == m2,
{
    assert(m1[0].entries =~= m2[0].entries);
    assert(m1[0] =~= m2[0]);
    assert(m1 =~= m2);
}

} // verus!
