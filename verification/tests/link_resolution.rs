use xacto::Act;
use xacto::LinkError;
use xacto::LinkPublisher;
use xacto::Scope;
use xacto::ScopeContext;
use xacto::SendError;

fn some_address(capacity: usize) -> (Act<u32>, tokio::sync::mpsc::Receiver<xacto::ActorSignal<u32>>)
{
    let mut ctx = ScopeContext::new();
    let mut scope = Scope::new(&mut ctx);
    let slot = scope.prepare_spawn::<u32>(capacity).unwrap();
    (slot.act, slot.rx)
}

#[test]
fn unresolved_link_hands_the_message_back() {
    let (_publisher, mut link) = LinkPublisher::<u32>::new();
    assert!(link.poll_get().is_none());
    match link.try_cast(9) {
        Err(LinkError::Unavailable(m)) => assert_eq!(m, 9),
        _ => panic!("expected Unavailable"),
    }
}

#[test]
fn publishing_resolves_pending_and_future_readers() {
    let (publisher, mut link) = LinkPublisher::<u32>::new();
    let mut second = link.clone();
    assert!(link.poll_get().is_none());

    let (act, _rx) = some_address(4);
    publisher.update(act.clone());

    let resolved = link.poll_get().expect("published address resolves");
    assert_eq!(resolved.id(), act.id());
    let also = second.poll_get().expect("every reader sees the published address");
    assert_eq!(also.id(), act.id());
}

#[test]
fn cache_survives_a_silent_publisher() {
    let (publisher, mut link) = LinkPublisher::<u32>::new();
    let (act, _rx) = some_address(4);
    publisher.update(act.clone());
    assert!(link.poll_get().is_some());

    // The publisher goes away without ever publishing again; the cache
    // keeps resolving and never regresses to unknown.
    drop(publisher);
    let cached = link.poll_get().expect("cached address still resolves");
    assert_eq!(cached.id(), act.id());
    let clone_sees_it = link.clone().poll_get().expect("clones inherit the cache");
    assert_eq!(clone_sees_it.id(), act.id());
}

#[test]
fn delegated_send_failure_is_reported_as_a_send_error() {
    let (publisher, mut link) = LinkPublisher::<u32>::new();
    let (act, rx) = some_address(4);
    publisher.update(act);
    drop(rx);
    match link.try_cast(7) {
        Err(LinkError::Send(SendError::Closed(m))) => assert_eq!(m, 7),
        _ => panic!("expected a delegated Closed"),
    }
}

#[test]
fn resolved_link_delivers_casts() {
    let (publisher, mut link) = LinkPublisher::<u32>::new();
    let (act, _rx) = some_address(4);
    publisher.update(act);
    assert!(link.try_cast(5).is_ok());
}

#[test]
fn attach_msg_keeps_the_failure_kind() {
    let unavailable: LinkError<(), u32> = LinkError::Unavailable(());
    match xacto::attach_msg(unavailable, 3) {
        LinkError::Unavailable(m) => assert_eq!(m, 3),
        _ => panic!("expected Unavailable"),
    }
    let send: LinkError<(), u32> = LinkError::Send(SendError::Full(8));
    match xacto::attach_msg(send, 3) {
        LinkError::Send(SendError::Full(m)) => assert_eq!(m, 8),
        _ => panic!("expected Send(Full)"),
    }
}
