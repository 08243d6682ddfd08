use wakaama_rs::{DispatchError, ReceiveError, Registry};

#[test]
fn new_registry_knows_no_instance() {
    let mut registry = Registry::new();
    assert!(!registry.is_registered(0));
    assert!(!registry.is_registered(42));
    assert_eq!(registry.receive(42), Err(ReceiveError::UnknownIdentity));
}

#[test]
fn dispatch_to_an_unknown_identity_fails_and_changes_nothing() {
    let mut registry = Registry::new();
    registry.register(1);
    assert_eq!(registry.dispatch(2, 7), Err(DispatchError::UnknownIdentity));
    assert!(!registry.is_registered(2));
    assert_eq!(registry.receive(2), Err(ReceiveError::UnknownIdentity));
    assert_eq!(registry.receive(1), Err(ReceiveError::Empty));
}

#[test]
fn registered_identity_starts_with_an_empty_mailbox() {
    let mut registry = Registry::new();
    registry.register(5);
    assert!(registry.is_registered(5));
    assert_eq!(registry.receive(5), Err(ReceiveError::Empty));
}

#[test]
fn posted_notification_is_received_once() {
    let mut registry = Registry::new();
    registry.register(5);
    assert_eq!(registry.dispatch(5, 1234), Ok(()));
    assert_eq!(registry.receive(5), Ok(1234));
    assert_eq!(registry.receive(5), Err(ReceiveError::Empty));
}

#[test]
fn notifications_are_received_in_the_order_posted() {
    let mut registry = Registry::new();
    registry.register(5);
    for client_id in [3u16, 1, 2, 65535, 0] {
        assert_eq!(registry.dispatch(5, client_id), Ok(()));
    }
    for client_id in [3u16, 1, 2, 65535, 0] {
        assert_eq!(registry.receive(5), Ok(client_id));
    }
    assert_eq!(registry.receive(5), Err(ReceiveError::Empty));
}

#[test]
fn posting_and_taking_may_alternate() {
    let mut registry = Registry::new();
    registry.register(9);
    assert_eq!(registry.dispatch(9, 1), Ok(()));
    assert_eq!(registry.dispatch(9, 2), Ok(()));
    assert_eq!(registry.receive(9), Ok(1));
    assert_eq!(registry.dispatch(9, 3), Ok(()));
    assert_eq!(registry.receive(9), Ok(2));
    assert_eq!(registry.receive(9), Ok(3));
    assert_eq!(registry.receive(9), Err(ReceiveError::Empty));
}

#[test]
fn mailboxes_of_different_identities_are_separate() {
    let mut registry = Registry::new();
    registry.register(1);
    registry.register(2);
    assert_eq!(registry.dispatch(1, 10), Ok(()));
    assert_eq!(registry.dispatch(2, 20), Ok(()));
    assert_eq!(registry.dispatch(1, 11), Ok(()));
    assert_eq!(registry.receive(2), Ok(20));
    assert_eq!(registry.receive(2), Err(ReceiveError::Empty));
    assert_eq!(registry.receive(1), Ok(10));
    assert_eq!(registry.receive(1), Ok(11));
    assert_eq!(registry.receive(1), Err(ReceiveError::Empty));
}

#[test]
fn registering_again_replaces_the_mailbox() {
    let mut registry = Registry::new();
    registry.register(3);
    assert_eq!(registry.dispatch(3, 1), Ok(()));
    registry.register(3);
    assert!(registry.is_registered(3));
    assert_eq!(registry.receive(3), Err(ReceiveError::Empty));
    assert_eq!(registry.dispatch(3, 2), Ok(()));
    assert_eq!(registry.receive(3), Ok(2));
}

#[test]
fn registering_one_identity_leaves_the_others_pending() {
    let mut registry = Registry::new();
    registry.register(1);
    assert_eq!(registry.dispatch(1, 77), Ok(()));
    registry.register(2);
    assert_eq!(registry.receive(1), Ok(77));
}

#[test]
fn extreme_identities_are_ordinary_keys() {
    let mut registry = Registry::new();
    registry.register(0);
    registry.register(u64::MAX);
    assert_eq!(registry.dispatch(u64::MAX, 1), Ok(()));
    assert_eq!(registry.dispatch(0, 2), Ok(()));
    assert_eq!(registry.receive(0), Ok(2));
    assert_eq!(registry.receive(u64::MAX), Ok(1));
}

#[test]
fn many_notifications_keep_their_order() {
    let mut registry = Registry::new();
    registry.register(8);
    for client_id in 0..5000u16 {
        assert_eq!(registry.dispatch(8, client_id), Ok(()));
    }
    for client_id in 0..5000u16 {
        assert_eq!(registry.receive(8), Ok(client_id));
    }
    assert_eq!(registry.receive(8), Err(ReceiveError::Empty));
}
