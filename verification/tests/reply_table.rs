use xacto::Reply;
use xacto::ReplyMap;
use xacto::ReplyPoll;

#[test]
fn ids_are_nonzero_and_distinct_while_occupied() {
    let mut map: ReplyMap<u32> = ReplyMap::new();
    let (r1, _rx1) = Reply::slot();
    let (r2, _rx2) = Reply::slot();
    let id1 = map.insert_reply(r1);
    let id2 = map.insert_reply(r2);
    assert!(id1 >= 1);
    assert!(id2 >= 1);
    assert_ne!(id1, id2);
}

#[test]
fn an_id_fulfilled_or_removed_cannot_be_taken_again() {
    let mut map: ReplyMap<u32> = ReplyMap::new();
    let (reply, mut rx) = Reply::slot();
    let id = map.insert_reply(reply);

    let taken = map.get_reply(id).expect("registered id yields the capsule");
    taken.send(42).expect("waiter is alive");
    assert!(matches!(rx.poll(), ReplyPoll::Ready(42)));

    // The slot was freed exactly once: the id yields nothing now.
    assert!(map.get_reply(id).is_none());
}

#[test]
fn an_unregistered_id_yields_nothing() {
    let mut map: ReplyMap<u32> = ReplyMap::new();
    assert!(map.get_reply(0).is_none());
    assert!(map.get_reply(1).is_none());
    assert!(map.get_reply(99).is_none());
}

#[test]
fn a_freed_slot_is_reused_for_the_next_registration() {
    let mut map: ReplyMap<u32> = ReplyMap::new();
    let (r1, _rx1) = Reply::slot();
    let (r2, _rx2) = Reply::slot();
    let id1 = map.insert_reply(r1);
    let id2 = map.insert_reply(r2);
    assert_eq!(id1, 1);
    assert_eq!(id2, 2);

    let _ = map.get_reply(id1);
    let (r3, _rx3) = Reply::slot();
    let id3 = map.insert_reply(r3);
    assert_eq!(id3, id1);
    assert_eq!(map.slot_count(), 2);
}

#[test]
fn sending_to_a_dropped_waiter_hands_the_value_back() {
    let (reply, rx) = Reply::<u32>::slot();
    drop(rx);
    match reply.send(7) {
        Err(xacto::SendError::Closed(v)) => assert_eq!(v, 7),
        other => panic!("expected Closed, got {:?}", other),
    }
}
