use app_shell::dispatch::Dispatcher;
use app_shell::dispatch::EventBus;
use app_shell::dispatch::MenuActivationEvent;
use app_shell::dispatch::Payload;
use app_shell::dispatch::notification_for;
use app_shell::menu::MenuEntry;
use app_shell::menu::build_menu;
use app_shell::registry::Arg;
use app_shell::registry::InvokeError;
use app_shell::registry::greet;
use app_shell::registry::invoke;

fn name_arg(value: &str) -> Arg {
    Arg { key: String::from("name"), value: String::from(value) }
}

#[test]
fn greet_formats_the_fixed_template() {
    assert_eq!(greet("World"), "Hello, World! You've been greeted from Rust!");
    assert_eq!(greet("Ada"), "Hello, Ada! You've been greeted from Rust!");
}

#[test]
fn greet_with_empty_name() {
    assert_eq!(greet(""), "Hello, ! You've been greeted from Rust!");
}

#[test]
fn invoke_greet_returns_the_greeting() {
    let args = vec![name_arg("World")];
    let r = invoke("greet", &args);
    assert_eq!(r, Ok(String::from("Hello, World! You've been greeted from Rust!")));
}

#[test]
fn invoke_unknown_command_fails() {
    let args: Vec<Arg> = Vec::new();
    assert_eq!(invoke("nonexistent", &args), Err(InvokeError::UnknownCommand));
}

#[test]
fn invoke_greet_with_no_arguments_fails() {
    let args: Vec<Arg> = Vec::new();
    assert_eq!(invoke("greet", &args), Err(InvokeError::InvalidArguments));
}

#[test]
fn invoke_greet_with_wrong_key_fails() {
    let args = vec![Arg { key: String::from("who"), value: String::from("World") }];
    assert_eq!(invoke("greet", &args), Err(InvokeError::InvalidArguments));
}

#[test]
fn invoke_greet_with_too_many_arguments_fails() {
    let args = vec![name_arg("World"), name_arg("Again")];
    assert_eq!(invoke("greet", &args), Err(InvokeError::InvalidArguments));
}

#[test]
fn built_menu_has_the_declared_shape() {
    let m = build_menu();
    assert_eq!(m.submenus.len(), 1);
    let file_menu = &m.submenus[0];
    assert_eq!(file_menu.label, "File");
    assert!(file_menu.enabled);
    assert_eq!(file_menu.entries.len(), 3);
    match &file_menu.entries[0] {
        MenuEntry::Action { id, label, enabled } => {
            assert_eq!(id, "import_csv");
            assert_eq!(label, "Import CSV...");
            assert!(*enabled);
        },
        _ => panic!("first entry must be the import item"),
    }
    assert!(matches!(file_menu.entries[1], MenuEntry::Separator));
    assert!(matches!(file_menu.entries[2], MenuEntry::Quit));
}

#[test]
fn building_the_menu_twice_yields_the_same_tree() {
    let m1 = build_menu();
    let m2 = build_menu();
    assert_eq!(m1.submenus.len(), m2.submenus.len());
    assert_eq!(m1.submenus[0].label, m2.submenus[0].label);
    assert_eq!(m1.submenus[0].entries.len(), m2.submenus[0].entries.len());
}

#[test]
fn import_activation_is_routed() {
    let ev = MenuActivationEvent { id: String::from("import_csv") };
    let n = notification_for(&ev).expect("the import item is routed");
    assert_eq!(n.name, "menu-import-csv");
    assert!(matches!(n.payload, Payload::Empty));
}

#[test]
fn other_activations_are_ignored() {
    for id in ["quit", "open", "import", ""] {
        let ev = MenuActivationEvent { id: String::from(id) };
        assert!(notification_for(&ev).is_none());
    }
}

#[test]
fn activation_emits_exactly_one_notification_per_subscriber() {
    let mut d = Dispatcher::new();
    d.initialize();
    let a = d.subscribe();
    let b = d.subscribe();
    d.on_activation(&MenuActivationEvent { id: String::from("import_csv") });
    for idx in [a, b] {
        let q = d.received(idx);
        assert_eq!(q.len(), 1);
        assert_eq!(q[0].name, "menu-import-csv");
        assert!(matches!(q[0].payload, Payload::Empty));
    }
}

#[test]
fn quit_and_unknown_ids_emit_nothing() {
    let mut d = Dispatcher::new();
    d.initialize();
    let idx = d.subscribe();
    d.on_activation(&MenuActivationEvent { id: String::from("quit") });
    d.on_activation(&MenuActivationEvent { id: String::from("anything_else") });
    assert_eq!(d.received(idx).len(), 0);
}

#[test]
fn emission_with_zero_subscribers_returns_normally() {
    let mut d = Dispatcher::new();
    d.initialize();
    assert_eq!(d.subscriber_count(), 0);
    d.on_activation(&MenuActivationEvent { id: String::from("import_csv") });
    assert_eq!(d.subscriber_count(), 0);
}

#[test]
fn bus_broadcasts_to_every_subscriber() {
    let mut bus = EventBus::new();
    assert_eq!(bus.subscriber_count(), 0);
    bus.emit("menu-import-csv", Payload::Empty);
    let first = bus.subscribe();
    let second = bus.subscribe();
    bus.emit("menu-import-csv", Payload::Empty);
    assert_eq!(bus.received(first).len(), 1);
    assert_eq!(bus.received(second).len(), 1);
    assert_eq!(bus.received(first)[0].name, "menu-import-csv");
}

#[test]
fn dispatcher_starts_with_no_menu() {
    let d = Dispatcher::new();
    assert!(d.menu().is_none());
}

#[test]
fn initialized_dispatcher_holds_the_menu() {
    let mut d = Dispatcher::new();
    d.initialize();
    let m = d.menu().as_ref().expect("initialization builds the menu");
    assert_eq!(m.submenus.len(), 1);
    assert_eq!(m.submenus[0].label, "File");
}
