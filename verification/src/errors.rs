//! The error taxonomy of the runtime: mailbox send failures, reply
//! reception failures, their composition for calls, and the failures of
//! late-bound address resolution.

use vstd::prelude::*;

verus! {

/// A message could not be enqueued. The rejected message is handed back
/// to the caller so it can be retried, queued elsewhere, or dropped.
#[derive(Debug)]
pub enum SendError<M> {
    /// The mailbox was at capacity.
    Full(M),
    /// The receiving side is gone; no send can ever succeed again.
    Closed(M),
}

/// A reply never arrived.
#[derive(Debug)]
pub enum RecvError {
    /// Reserved: no operation in the core currently produces it.
    Timeout,
    /// The answering side vanished before fulfilling the reply.
    Closed,
}

/// A request/reply exchange failed: either the request could not be
/// sent, or the reply could not be received.
#[derive(Debug)]
pub enum CallError<M> {
    Send(SendError<M>),
    Recv(RecvError),
}

/// A late-bound address operation failed: either no address could be
/// resolved at all, or the delegated send or call failed.
#[derive(Debug)]
pub enum LinkError<U, M> {
    Unavailable(U),
    Send(SendError<M>),
    Call(CallError<M>),
}

/// An error reported by an actor's own lifecycle operations.
#[derive(Debug)]
pub enum ActorError {
    Link(LinkError<(), ()>),
    Send(SendError<()>),
    Recv(RecvError),
    /// Any other failure, carried as a description.
    Unknown(String),
}

impl ActorError {
    /// A short description of the error category.
    pub fn describe(&self) -> (r: String)
        ensures
            self is Link ==> r@ == "actor link error"@,
            self is Send ==> r@ == "actor send error"@,
            self is Recv ==> r@ == "actor recv error"@,
            self is Unknown ==> r@ == "actor unknown error"@,
    {
        match self {
            ActorError::Link(_) => "actor link error".to_string(),
            ActorError::Send(_) => "actor send error".to_string(),
            ActorError::Recv(_) => "actor recv error".to_string(),
            ActorError::Unknown(_) => "actor unknown error".to_string(),
        }
    }
}

impl<M> From<SendError<M>> for ActorError {
    /// Forgets the rejected message, keeping only the failure category.
    fn from(value: SendError<M>) -> (r: ActorError) {
        match value {
            SendError::Full(_) => ActorError::Send(SendError::Full(())),
            SendError::Closed(_) => ActorError::Send(SendError::Closed(())),
        }
    }
}

impl<M> vstd::std_specs::convert::FromSpecImpl<SendError<M>> for ActorError {
    open spec fn obeys_from_spec() -> bool {
        true
    }

    open spec fn from_spec(value: SendError<M>) -> ActorError {
        match value {
            SendError::Full(_) => ActorError::Send(SendError::Full(())),
            SendError::Closed(_) => ActorError::Send(SendError::Closed(())),
        }
    }
}

impl<M> From<CallError<M>> for ActorError {
    /// Forgets the rejected message, keeping only which half of the
    /// exchange failed.
    fn from(value: CallError<M>) -> (r: ActorError) {
        match value {
            CallError::Send(SendError::Full(_)) => ActorError::Send(SendError::Full(())),
            CallError::Send(SendError::Closed(_)) => ActorError::Send(SendError::Closed(())),
            CallError::Recv(e) => ActorError::Recv(e),
        }
    }
}

impl<M> vstd::std_specs::convert::FromSpecImpl<CallError<M>> for ActorError {
    open spec fn obeys_from_spec() -> bool {
        true
    }

    open spec fn from_spec(value: CallError<M>) -> ActorError {
        match value {
            CallError::Send(SendError::Full(_)) => ActorError::Send(SendError::Full(())),
            CallError::Send(SendError::Closed(_)) => ActorError::Send(SendError::Closed(())),
            CallError::Recv(e) => ActorError::Recv(e),
        }
    }
}

} // verus!
