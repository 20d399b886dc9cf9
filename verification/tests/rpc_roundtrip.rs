use xacto::ComputeMsg;
use xacto::ComputeRequest;
use xacto::ComputeResponse;
use xacto::ReplyMap;
use xacto::ReplyPoll;
use xacto::RpcEnvelope;

#[test]
fn round_trip_resumes_the_caller_with_the_peer_result() {
    // Client side: wrap a call into a request envelope, parking the
    // reply capsule in the table under the stamped id.
    let mut replies: ReplyMap<String> = ReplyMap::new();
    let (mut caller_rx, request) =
        replies.create_request(|reply| ComputeMsg::Compute(5, 2, 3, reply));
    assert_eq!(request.payload, ComputeRequest::Compute(5, 2, 3));
    assert_ne!(request.id, xacto::ONE_WAY);

    // Wire boundary: only the plain envelope values cross it.
    let peer_request = RpcEnvelope { id: request.id, payload: request.payload };

    // Peer side: reconstruct the local message around a fresh capsule,
    // let the handler produce the value, wrap it under the same id.
    let (msg, id, mut peer_rx) = ComputeMsg::accept_request(peer_request);
    let ComputeMsg::Compute(key, a, b, reply) = msg;
    let produced = format!("value[{}] = {}", key, a + b);
    reply.send(produced.clone()).expect("peer waiter is alive");
    let value = match peer_rx.poll() {
        ReplyPoll::Ready(v) => v,
        other => panic!("expected the handler's value, got {:?}", kind_of(&other)),
    };
    let response = ComputeMsg::encode_response(id, value);
    assert_eq!(response.id, request.id);

    // Client side again: the response resumes exactly the original
    // caller with exactly the peer's value.
    replies
        .handle_response::<ComputeMsg>(response)
        .expect("registered id resolves");
    match caller_rx.poll() {
        ReplyPoll::Ready(v) => assert_eq!(v, "value[5] = 5"),
        other => panic!("expected the peer's value, got {:?}", kind_of(&other)),
    }
    assert_eq!(produced, "value[5] = 5");
}

#[test]
fn a_response_id_resolves_at_most_once() {
    let mut replies: ReplyMap<String> = ReplyMap::new();
    let (_caller_rx, request) =
        replies.create_request(|reply| ComputeMsg::Compute(1, 1, 1, reply));

    let first = ComputeMsg::resolve_response(
        RpcEnvelope { id: request.id, payload: ComputeResponse::Compute("x".to_string()) },
        &mut replies,
    );
    assert!(first.is_ok());

    let second = ComputeMsg::resolve_response(
        RpcEnvelope { id: request.id, payload: ComputeResponse::Compute("y".to_string()) },
        &mut replies,
    );
    assert!(second.is_err());
}

#[test]
fn an_unregistered_response_id_is_a_protocol_error() {
    let mut replies: ReplyMap<String> = ReplyMap::new();
    let outcome = ComputeMsg::resolve_response(
        RpcEnvelope { id: 12, payload: ComputeResponse::Compute("z".to_string()) },
        &mut replies,
    );
    assert!(outcome.is_err());
}

fn kind_of(poll: &ReplyPoll<String>) -> &'static str {
    match poll {
        ReplyPoll::Ready(_) => "ready",
        ReplyPoll::Pending => "pending",
        ReplyPoll::Closed => "closed",
    }
}
