use easy_socket::registry::EventRegistry;

#[test]
fn second_registration_replaces_first() {
    let mut reg: EventRegistry<u32> = EventRegistry::new();
    reg.register("ping", 1);
    reg.register("ping", 2);
    assert_eq!(reg.lookup("ping"), Some(&2));
    assert!(reg.contains("ping"));
}

#[test]
fn lookup_of_unregistered_name_is_absent() {
    let mut reg: EventRegistry<u32> = EventRegistry::new();
    assert_eq!(reg.lookup("ping"), None);
    reg.register("pong", 5);
    assert_eq!(reg.lookup("ping"), None);
    assert!(!reg.contains("ping"));
    assert_eq!(reg.lookup("pong"), Some(&5));
}

#[test]
fn distinct_names_keep_their_handlers() {
    let mut reg: EventRegistry<&str> = EventRegistry::new();
    reg.register("a", "first");
    reg.register("", "empty");
    reg.register("b", "second");
    reg.register("a", "third");
    assert_eq!(reg.lookup("a"), Some(&"third"));
    assert_eq!(reg.lookup(""), Some(&"empty"));
    assert_eq!(reg.lookup("b"), Some(&"second"));
    assert_eq!(reg.lookup("A"), None);
}
