use server_sent_events::connection_registry::ConnectionRegistry;

#[test]
fn registry_last_write_wins() {
    let mut registry = ConnectionRegistry::new();
    registry.register(1, "c1");
    registry.register(1, "c2");
    assert_eq!(registry.lookup(1), Some(&"c2"));
    assert!(registry.is_connected(1));
}

#[test]
fn deregister_twice_is_harmless() {
    let mut registry = ConnectionRegistry::new();
    registry.register(1, "c1");
    registry.deregister(2);
    registry.deregister(2);
    assert_eq!(registry.lookup(1), Some(&"c1"));
    registry.deregister(1);
    assert_eq!(registry.lookup(1), None);
    assert!(!registry.is_connected(1));
}
