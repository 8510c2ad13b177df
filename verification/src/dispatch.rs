//! The menu dispatcher: routes menu-activation events to fire-and-forget
//! notifications.
//!
//! The dispatcher starts uninitialized, moves to ready exactly once by
//! building the menu tree, and thereafter is a stateless event handler:
//! an activation whose id is recognized emits exactly one notification
//! to every current subscriber; any other activation emits nothing.
//! Emission never fails and never blocks — with zero subscribers it
//! simply delivers to nobody.

use vstd::prelude::*;
use vstd::string::StringExecFns;

use crate::menu::Menu;
use crate::menu::SubmenuView;
use crate::menu::build_menu;
use crate::menu::entry_action_id;
use crate::menu::menu_has_action_id;
use crate::menu::standard_menu;
use crate::text::str_eq;

verus! {

/// The value delivered by the host when a menu item is activated:
/// the id of the clicked item. Consumed exactly once per activation.
pub struct MenuActivationEvent {
    pub id: String,
}

/// The payload a notification carries. The menu notifications of this
/// application carry no data.
#[derive(Clone, Copy, Debug, PartialEq, Eq, Structural)]
pub enum Payload {
    Empty,
}

/// A named, fire-and-forget event broadcast to zero or more subscribers.
pub struct Notification {
    pub name: String,
    pub payload: Payload,
}

/// The mathematical value of a [`Notification`].
#[verifier::ext_equal]
pub struct NotificationView {
    pub name: Seq<char>,
    pub payload: Payload,
}

impl View for Notification {
    type V = NotificationView;

    open spec fn view(&self) -> NotificationView {
        NotificationView { name: self.name@, payload: self.payload }
    }
}

/// Whether the dispatcher recognizes the activated id. Exactly one id
/// is routed: the import item's.
pub open spec fn recognized_id(id: Seq<char>) -> bool {
    id == "import_csv"@
}

/// The name of the notification emitted for the import item.
pub open spec fn import_notification_name() -> Seq<char> {
    "menu-import-csv"@
}

/// The notifications an activation with id `id` causes: exactly one,
/// named `menu-import-csv` with empty payload, when the id is
/// recognized; none otherwise.
pub open spec fn notifications_for(id: Seq<char>) -> Seq<NotificationView> {
    if recognized_id(id) {
        seq![NotificationView { name: import_notification_name(), payload: Payload::Empty }]
    } else {
        Seq::empty()
    }
}

/// The routing decision alone, as a pure function: the notification to
/// emit for `event`, if any. The host environment performs the actual
/// emission with whatever transport it has.
pub fn notification_for(event: &MenuActivationEvent) -> (r: Option<Notification>)
    ensures
        recognized_id(event.id@) ==> (r matches Some(n) && n@ == (NotificationView {
            name: import_notification_name(),
            payload: Payload::Empty,
        })),
        !recognized_id(event.id@) ==> r is None,
        r matches Some(n) ==> notifications_for(event.id@) == seq![n@],
        r is None ==> notifications_for(event.id@) == Seq::<NotificationView>::empty(),
{
    if str_eq(event.id.as_str(), "import_csv") {
        let n = Notification {
            name: String::from_str("menu-import-csv"),
            payload: Payload::Empty,
        };
        proof {
            assert(notifications_for(event.id@) =~= seq![n@]);
        }
        Some(n)
    } else {
        None
    }
}

/// The view of one subscriber's queue.
pub open spec fn queue_view(q: Seq<Notification>) -> Seq<NotificationView> {
    q.map_values(|n: Notification| n@)
}

/// A broadcast channel: each subscriber owns a queue, and every emitted
/// notification is appended to every queue. The publisher never blocks
/// on and never depends on subscriber presence.
pub struct EventBus {
    queues: Vec<Vec<Notification>>,
}

impl View for EventBus {
    type V = Seq<Seq<NotificationView>>;

    closed spec fn view(&self) -> Seq<Seq<NotificationView>> {
        self.queues@.map_values(|q: Vec<Notification>| queue_view(q@))
    }
}

impl EventBus {
    /// A bus with no subscribers.
    pub fn new() -> (b: EventBus)
        ensures
            b@ == Seq::<Seq<NotificationView>>::empty(),
    {
        let b = EventBus { queues: Vec::new() };
        proof {
            assert(b@ =~= Seq::<Seq<NotificationView>>::empty());
        }
        b
    }

    /// How many subscribers are attached.
    pub fn subscriber_count(&self) -> (n: usize)
        ensures
            n == self@.len(),
    {
        self.queues.len()
    }

    /// Attaches a new subscriber with an empty queue; returns its index.
    /// Existing queues are untouched.
    pub fn subscribe(&mut self) -> (idx: usize)
        ensures
            idx == old(self)@.len(),
            final(self)@ == old(self)@.push(Seq::<NotificationView>::empty()),
    {
        let idx = self.queues.len();
        self.queues.push(Vec::new());
        proof {
            assert(self@ =~~= old(self)@.push(Seq::<NotificationView>::empty()));
        }
        idx
    }

    /// The notifications subscriber `idx` has received, oldest first.
    pub fn received(&self, idx: usize) -> (q: &Vec<Notification>)
        requires
            idx < self@.len(),
        ensures
            queue_view(q@) == self@[idx as int],
    {
        &self.queues[idx]
    }

    /// Broadcasts one notification to every subscriber: fire-and-forget.
    /// It appends to each queue, returns normally whatever the number of
    /// subscribers — zero included — and never blocks or fails.
    pub fn emit(&mut self, name: &str, payload: Payload)
        ensures
            final(self)@.len() == old(self)@.len(),
            forall|k: int|
                0 <= k < old(self)@.len() ==> final(self)@[k] == old(self)@[k].push(
                    (NotificationView { name: name@, payload }),
                ),
    {
        let ghost nv = NotificationView { name: name@, payload };
        let mut i: usize = 0;
        while i < self.queues.len()
            invariant
                nv == (NotificationView { name: name@, payload }),
                i <= self.queues@.len(),
                self.queues@.len() == old(self).queues@.len(),
                forall|k: int|
                    0 <= k < i ==> queue_view(self.queues@[k]@) == queue_view(
                        old(self).queues@[k]@,
                    ).push(nv),
                forall|k: int| i <= k < self.queues@.len() ==> self.queues@[k] == old(
                    self,
                ).queues@[k],
            decreases self.queues@.len() - i,
        {
            let n = Notification { name: String::from_str(name), payload };
            proof {
                assert(n@ == nv);
            }
            self.queues[i].push(n);
            proof {
                assert(self.queues@[i as int]@ == old(self).queues@[i as int]@.push(n));
                assert(queue_view(self.queues@[i as int]@) =~= queue_view(
                    old(self).queues@[i as int]@,
                ).push(nv));
            }
            i = i + 1;
        }
        proof {
            assert(self@.len() == old(self)@.len());
            assert forall|k: int| 0 <= k < old(self)@.len() implies self@[k] == old(self)@[k].push(
                nv,
            ) by {
                assert(queue_view(self.queues@[k]@) == queue_view(old(self).queues@[k]@).push(nv));
            }
        }
    }
}

/// Every id the dispatcher recognizes names an action entry of the
/// standard menu tree: the dispatch logic references no dangling
/// identifier.
pub proof fn lemma_recognized_ids_in_menu(m: Seq<SubmenuView>, id: Seq<char>)
    requires
        standard_menu(m),
        recognized_id(id),
    ensures
        menu_has_action_id(m, id),
{
    assert(0 <= 0 < m.len() && 0 <= 0 < m[0].entries.len() && entry_action_id(m[0].entries[0])
        == Some(id));
}

/// The dispatcher: holds the menu once built and the notification bus,
/// and routes activation events.
pub struct Dispatcher {
    ready: bool,
    menu: Option<Menu>,
    bus: EventBus,
}

impl Dispatcher {
    /// Whether initialization has happened.
    pub closed spec fn ready(&self) -> bool {
        self.ready
    }

    /// The menu tree, once built.
    pub closed spec fn menu_view(&self) -> Option<Seq<SubmenuView>> {
        match self.menu {
            Some(m) => Some(m@),
            None => None,
        }
    }

    /// The subscriber queues of the notification bus.
    pub closed spec fn bus_view(&self) -> Seq<Seq<NotificationView>> {
        self.bus@
    }

    /// Well-formedness: the dispatcher is ready exactly when it holds a
    /// menu, and the menu it holds is the standard tree.
    pub open spec fn wf(&self) -> bool {
        self.ready() <==> (self.menu_view() matches Some(mv) && standard_menu(mv))
    }

    /// A fresh dispatcher: uninitialized, no menu, no subscribers.
    pub fn new() -> (d: Dispatcher)
        ensures
            d.wf(),
            !d.ready(),
            d.menu_view() is None,
            d.bus_view() == Seq::<Seq<NotificationView>>::empty(),
    {
        Dispatcher { ready: false, menu: None, bus: EventBus::new() }
    }

    /// The one state transition, taken exactly once at startup: builds
    /// the menu tree and becomes ready. Subscribers are untouched.
    pub fn initialize(&mut self)
        requires
            old(self).wf(),
            !old(self).ready(),
        ensures
            final(self).wf(),
            final(self).ready(),
            final(self).menu_view() matches Some(mv) && standard_menu(mv),
            final(self).bus_view() == old(self).bus_view(),
    {
        let m = build_menu();
        self.menu = Some(m);
        self.ready = true;
    }

    /// The menu tree to hand to the host, once ready.
    pub fn menu(&self) -> (m: &Option<Menu>)
        ensures
            m is Some <==> self.menu_view() is Some,
            m matches Some(menu) ==> self.menu_view() == Some(menu@),
    {
        &self.menu
    }

    /// Attaches a subscriber to the notification bus; returns its index.
    /// Readiness and the menu are untouched.
    pub fn subscribe(&mut self) -> (idx: usize)
        ensures
            idx == old(self).bus_view().len(),
            final(self).bus_view() == old(self).bus_view().push(
                Seq::<NotificationView>::empty(),
            ),
            final(self).ready() == old(self).ready(),
            final(self).menu_view() == old(self).menu_view(),
            old(self).wf() ==> final(self).wf(),
    {
        self.bus.subscribe()
    }

    /// The notifications subscriber `idx` has received, oldest first.
    pub fn received(&self, idx: usize) -> (q: &Vec<Notification>)
        requires
            idx < self.bus_view().len(),
        ensures
            queue_view(q@) == self.bus_view()[idx as int],
    {
        self.bus.received(idx)
    }

    /// How many subscribers are attached.
    pub fn subscriber_count(&self) -> (n: usize)
        ensures
            n == self.bus_view().len(),
    {
        self.bus.subscriber_count()
    }

    /// Handles one menu-activation event, once ready: appends exactly
    /// the notifications the event's id calls for — one `menu-import-csv`
    /// notification with empty payload for the import item, none for any
    /// other id — to every subscriber's queue. Total and non-blocking:
    /// it returns normally whatever the id and however many subscribers
    /// are attached, zero included.
    pub fn on_activation(&mut self, event: &MenuActivationEvent)
        requires
            old(self).wf(),
            old(self).ready(),
        ensures
            final(self).wf(),
            final(self).ready(),
            final(self).menu_view() == old(self).menu_view(),
            final(self).bus_view().len() == old(self).bus_view().len(),
            forall|k: int|
                0 <= k < old(self).bus_view().len() ==> final(self).bus_view()[k] == old(
                    self,
                ).bus_view()[k] + notifications_for(event.id@),
    {
        match notification_for(event) {
            Some(n) => {
                self.bus.emit(n.name.as_str(), n.payload);
                proof {
                    assert forall|k: int|
                        0 <= k < old(self).bus_view().len() implies self.bus_view()[k] == old(
                        self,
                    ).bus_view()[k] + notifications_for(event.id@) by {
                        assert(old(self).bus_view()[k].push(n@) =~= old(self).bus_view()[k]
                            + notifications_for(event.id@));
                    }
                }
            },
            None => {
                proof {
                    assert forall|k: int|
                        0 <= k < old(self).bus_view().len() implies self.bus_view()[k] == old(
                        self,
                    ).bus_view()[k] + notifications_for(event.id@) by {
                        assert(old(self).bus_view()[k] =~= old(self).bus_view()[k]
                            + notifications_for(event.id@));
                    }
                }
            },
        }
    }
}

} // verus!
