//! The actor contract: the polymorphic capability every actor type
//! implements, and the identity an actor carries for its lifetime.

use vstd::prelude::*;

use crate::errors::ActorError;
use crate::task::ActorSelf;

verus! {

/// The identity of one actor: the owning scope's sequence number and a
/// per-scope actor sequence number. Assigned monotonically by the
/// owning scope and never reused while the actor set is reachable.
#[derive(Debug, Clone, Copy, PartialEq, Eq, Hash, Structural)]
pub struct ActorId(pub u32, pub u32);

/// The outcome of one actor lifecycle operation.
pub type ActorResult<T> = Result<T, ActorError>;

/// The capability every actor type implements: initialize once, handle
/// one message at a time, finalize once. The runtime guarantees that at
/// most one execution context ever runs these operations on one
/// instance, so the state behind `&mut self` needs no locking.
pub trait Actor: Sized {
    /// What the actor is constructed from.
    type Args;

    /// The messages the actor's mailbox carries.
    type Msg;

    /// Initializes the actor state. A failure here is reported as a
    /// start error and the actor never runs.
    fn start(this: &ActorSelf<Self::Msg>, args: Self::Args) -> Result<Self, ActorError>;

    /// Handles one message. A failure here terminates the actor — its
    /// finalize operation still runs — and is reported as a receive
    /// error.
    fn receive(&mut self, this: &ActorSelf<Self::Msg>, msg: Self::Msg) -> Result<(), ActorError>;

    /// Finalizes the actor. Runs exactly once for an actor that reached
    /// its receive loop and then terminated, whether by cancellation or
    /// by a handling error; a failure here is reported as an exit error
    /// — unless a handling error is already being reported, which takes
    /// precedence — and never prevents termination. A force-killed
    /// actor never runs it.
    fn exit(&mut self) -> Result<(), ActorError>;
}

} // verus!
