use chai_framework::registry::ClientRegistry;

#[test]
fn register_refuses_new_clients_at_the_limit() {
    let mut r: ClientRegistry<&str> = ClientRegistry::new(2);
    assert_eq!(r.len(), 0);
    assert_eq!(r.limit(), 2);
    assert_eq!(r.register(3, "a"), Ok(()));
    assert!(r.contains(3));
    assert_eq!(r.register(9, "b"), Ok(()));
    assert_eq!(r.len(), 2);
    assert_eq!(r.register(4, "c"), Err("c"));
    assert!(!r.contains(4));
    assert_eq!(r.len(), 2);
    // replacing a registered client is allowed at the limit
    assert_eq!(r.register(3, "d"), Ok(()));
    assert_eq!(r.remove(3), Some("d"));
}

#[test]
fn zero_limit_registers_nobody() {
    let mut r: ClientRegistry<u8> = ClientRegistry::new(0);
    assert_eq!(r.register(0, 1), Err(1));
    assert_eq!(r.len(), 0);
}

#[test]
fn remove_frees_a_place() {
    let mut r: ClientRegistry<u8> = ClientRegistry::new(1);
    assert_eq!(r.register(1, 10), Ok(()));
    assert_eq!(r.register(2, 20), Err(20));
    assert_eq!(r.remove(1), Some(10));
    assert_eq!(r.remove(1), None);
    assert!(!r.contains(1));
    assert_eq!(r.register(2, 20), Ok(()));
    assert_eq!(r.len(), 1);
}

#[test]
fn ids_lists_every_client_once() {
    let mut r: ClientRegistry<u32> = ClientRegistry::new(10);
    assert!(r.ids().is_empty());
    for id in [5usize, 1, 9, 1] {
        let _ = r.register(id, 0);
    }
    let mut ids = r.ids();
    ids.sort();
    assert_eq!(ids, vec![1, 5, 9]);
}

#[test]
fn take_and_put_back_leaves_registry_unchanged() {
    let mut r: ClientRegistry<u32> = ClientRegistry::new(2);
    let _ = r.register(1, 10);
    let _ = r.register(2, 20);
    let taken = r.remove(1).unwrap();
    assert_eq!(r.register(1, taken), Ok(()));
    assert_eq!(r.len(), 2);
    assert_eq!(r.remove(1), Some(10));
    assert_eq!(r.remove(2), Some(20));
}
