use xacto::Mailbox;
use xacto::SendError;

#[test]
fn delivers_in_enqueue_order_across_senders() {
    // Sender A enqueues "a1" and "a2"; sender B's "b1" lands in between.
    // A's messages are observed in A's send order regardless.
    let mut mb: Mailbox<&str> = Mailbox::new(8);
    assert!(mb.try_push("a1").is_ok());
    assert!(mb.try_push("b1").is_ok());
    assert!(mb.try_push("a2").is_ok());

    let first = mb.pop().unwrap();
    let second = mb.pop().unwrap();
    let third = mb.pop().unwrap();
    assert_eq!(first, "a1");
    assert_eq!(second, "b1");
    assert_eq!(third, "a2");
    assert!(mb.pop().is_none());
}

#[test]
fn full_mailbox_rejects_immediately_then_drain_allows_retry() {
    let mut mb: Mailbox<u32> = Mailbox::new(1);
    assert!(mb.try_push(1).is_ok());
    match mb.try_push(2) {
        Err(SendError::Full(m)) => assert_eq!(m, 2),
        other => panic!("expected Full, got {:?}", other),
    }
    assert_eq!(mb.pop(), Some(1));
    assert!(mb.try_push(2).is_ok());
    assert_eq!(mb.pop(), Some(2));
}

#[test]
fn closed_mailbox_rejects_with_closed() {
    let mut mb: Mailbox<u32> = Mailbox::new(4);
    assert!(mb.try_push(7).is_ok());
    mb.close();
    match mb.try_push(8) {
        Err(SendError::Closed(m)) => assert_eq!(m, 8),
        other => panic!("expected Closed, got {:?}", other),
    }
    // Pending messages still drain after closing.
    assert_eq!(mb.pop(), Some(7));
    assert_eq!(mb.len(), 0);
}
