//! The request/response envelope protocol: a local call is wrapped into
//! a transport-neutral envelope `{id, payload}`, its reply capsule parks
//! in the reply table under the stamped id, and the matching response
//! envelope — the id echoed verbatim — resumes the caller exactly once.
//!
//! An id of zero marks a one-way request expecting no response; a
//! nonzero id is the sole correlation key. The wire codec is a caller
//! concern: everything here works on plain envelope values.
//!
//! The message-specific conversions follow a fixed shape per message
//! type; the compute message at the bottom carries one request/response
//! pair through the whole protocol with exact contracts.

use vstd::prelude::*;

use crate::act::Reply;
use crate::act::ReplyReceiver;
use crate::reply_map::ReplyMap;

verus! {

/// The id stamped on an envelope that expects no response.
pub const ONE_WAY: usize = 0;

/// A transport-neutral envelope: a correlation id and a payload.
#[derive(Debug)]
pub struct RpcEnvelope<T> {
    pub id: usize,
    pub payload: T,
}

/// The conversions a message type offers to cross a serialization
/// boundary: its reply-free request form, the response form carrying the
/// reply value, and the two table-facing conversions. The server-side
/// dispatch in between is driven by the surrounding runtime.
pub trait RpcMessage: Sized {
    /// The message with its reply capsule elided.
    type Request;

    /// The reply value a response envelope carries.
    type Response;

    /// The type the elided reply capsule would deliver.
    type ReplyValue;

    /// Converts the local message into a request envelope, registering
    /// its reply capsule (if it carries one) in the table and stamping
    /// the allocated id; a capsule-free message stamps the one-way id
    /// and leaves the table untouched. No other pending reply is ever
    /// touched.
    fn into_request(self, replies: &mut ReplyMap<Self::ReplyValue>) -> (r: RpcEnvelope<
        Self::Request,
    >)
        requires
            old(replies).can_register(),
        ensures
            r.id != ONE_WAY ==> !old(replies).occupied(r.id as int) && final(replies).occupied(
                r.id as int,
            ),
            r.id == ONE_WAY ==> final(replies).slots() == old(replies).slots(),
            forall|k: int| k != r.id ==> final(replies).occupied(k) == old(replies).occupied(k),
    ;

    /// Resolves an inbound response envelope: takes the capsule
    /// registered under its id out of the table — so the id can never
    /// resume a caller twice — and fulfills it with the carried value.
    /// An id not registered is a protocol error.
    fn proxy_response(
        env: RpcEnvelope<Self::Response>,
        replies: &mut ReplyMap<Self::ReplyValue>,
    ) -> (r: Result<(), ()>)
        ensures
            r is Ok ==> old(replies).occupied(env.id as int),
            !final(replies).occupied(env.id as int),
            forall|k: int| k != env.id ==> final(replies).occupied(k) == old(replies).occupied(k),
    ;
}

impl<T> ReplyMap<T> {
    /// Builds a message around a fresh reply capsule and converts it
    /// into a request envelope, handing back the receiver the caller
    /// awaits the correlated response on.
    pub fn create_request<M: RpcMessage<ReplyValue = T>, F: FnOnce(Reply<T>) -> M>(
        &mut self,
        build: F,
    ) -> (r: (ReplyReceiver<T>, RpcEnvelope<M::Request>))
        requires
            old(self).can_register(),
            forall|capsule: Reply<T>| #[trigger] build.requires((capsule,)),
        ensures
            r.1.id != ONE_WAY ==> !old(self).occupied(r.1.id as int) && final(self).occupied(
                r.1.id as int,
            ),
            r.1.id == ONE_WAY ==> final(self).slots() == old(self).slots(),
            forall|k: int| k != r.1.id ==> final(self).occupied(k) == old(self).occupied(k),
    {
        let (reply, rx) = Reply::slot();
        let msg = build(reply);
        let env = msg.into_request(self);
        (rx, env)
    }

    /// Resolves an inbound response envelope against this table: the
    /// id's pending capsule is consumed, so it can never resume a
    /// caller twice, and success is owed only to a registered id.
    pub fn handle_response<M: RpcMessage<ReplyValue = T>>(
        &mut self,
        env: RpcEnvelope<M::Response>,
    ) -> (r: Result<(), ()>)
        ensures
            r is Ok ==> old(self).occupied(env.id as int),
            !final(self).occupied(env.id as int),
            forall|k: int| k != env.id ==> final(self).occupied(k) == old(self).occupied(k),
    {
        M::proxy_response(env, self)
    }
}

/// A concrete request/response pair carried through the protocol: ask a
/// peer to compute the value for a key given two parameters and answer
/// with a formatted string.
pub enum ComputeMsg {
    Compute(u64, u64, u64, Reply<String>),
}

/// `ComputeMsg` with the reply capsule elided.
#[derive(Debug, PartialEq, Eq)]
pub enum ComputeRequest {
    Compute(u64, u64, u64),
}

/// The reply value of `ComputeMsg`, carried back by id.
#[derive(Debug, PartialEq, Eq)]
pub enum ComputeResponse {
    Compute(String),
}

impl ComputeMsg {
    /// Client side: registers the capsule under a fresh nonzero id and
    /// stamps it into the request envelope; no other pending reply is
    /// touched.
    pub fn encode_request(self, replies: &mut ReplyMap<String>) -> (r: RpcEnvelope<ComputeRequest>)
        requires
            old(replies).can_register(),
        ensures
            self matches ComputeMsg::Compute(key, a, b, reply) ==> {
                &&& r.payload == ComputeRequest::Compute(key, a, b)
                &&& r.id >= 1
                &&& !old(replies).occupied(r.id as int)
                &&& final(replies).occupied(r.id as int)
                &&& final(replies).stored(r.id as int) == reply
                &&& forall|k: int|
                    k != r.id ==> final(replies).occupied(k) == old(replies).occupied(k)
            },
    {
        match self {
            ComputeMsg::Compute(key, a, b, reply) => {
                let id = replies.insert_reply(reply);
                RpcEnvelope { id, payload: ComputeRequest::Compute(key, a, b) }
            },
        }
    }

    /// Server side: reconstructs the local message from an inbound
    /// request envelope around a fresh local capsule, handing back the
    /// original id and the receiver the local result is awaited on.
    pub fn accept_request(env: RpcEnvelope<ComputeRequest>) -> (r: (
        ComputeMsg,
        usize,
        ReplyReceiver<String>,
    ))
        ensures
            env.payload matches ComputeRequest::Compute(key, a, b) ==> r.0 matches ComputeMsg::Compute(k2, a2, b2, _)
                && k2 == key && a2 == a && b2 == b,
            r.1 == env.id,
    {
        let (reply, rx) = Reply::slot();
        match env.payload {
            ComputeRequest::Compute(key, a, b) => (
                ComputeMsg::Compute(key, a, b, reply),
                env.id,
                rx,
            ),
        }
    }

    /// Server side: wraps the locally computed result as the response
    /// envelope, echoing the request's id verbatim.
    pub fn encode_response(id: usize, value: String) -> (r: RpcEnvelope<ComputeResponse>)
        ensures
            r.id == id,
            r.payload == ComputeResponse::Compute(value),
    {
        RpcEnvelope { id, payload: ComputeResponse::Compute(value) }
    }

    /// Client side: takes the capsule registered under the response's id
    /// out of the table — so the id can never resume a caller twice —
    /// and fulfills it with the carried value. An id not registered is a
    /// protocol error.
    pub fn resolve_response(env: RpcEnvelope<ComputeResponse>, replies: &mut ReplyMap<String>) -> (r:
        Result<(), ()>)
        ensures
            r is Ok ==> old(replies).occupied(env.id as int),
            !old(replies).occupied(env.id as int) ==> r is Err,
            !final(replies).occupied(env.id as int),
            forall|k: int|
                k != env.id ==> final(replies).occupied(k) == old(replies).occupied(k),
            forall|k: int|
                k != env.id && old(replies).occupied(k) ==> final(replies).stored(k) == old(
                    replies,
                ).stored(k),
    {
        match replies.get_reply(env.id) {
            None => Err(()),
            Some(reply) => {
                match env.payload {
                    ComputeResponse::Compute(value) => {
                        match reply.send(value) {
                            Ok(()) => Ok(()),
                            Err(_) => Err(()),
                        }
                    },
                }
            },
        }
    }
}

impl RpcMessage for ComputeMsg {
    type Request = ComputeRequest;

    type Response = ComputeResponse;

    type ReplyValue = String;

    fn into_request(self, replies: &mut ReplyMap<String>) -> RpcEnvelope<ComputeRequest> {
        self.encode_request(replies)
    }

    fn proxy_response(env: RpcEnvelope<ComputeResponse>, replies: &mut ReplyMap<String>) -> Result<
        (),
        (),
    > {
        ComputeMsg::resolve_response(env, replies)
    }
}

} // verus!
