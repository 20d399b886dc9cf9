//! The actor task: the state machine that owns one actor instance,
//! drives its mailbox, and reacts to cancellation.
//!
//! The asynchronous shell around it only multiplexes two events — the
//! next mailbox signal and cancellation — and feeds them in here; every
//! lifecycle decision and transition is verified. The contracts pin the
//! lifecycle `Starting -> Running -> Exiting -> Terminated` down, and in
//! particular that the finalize operation runs exactly once on any
//! running actor that terminates through the exiting phase — whether
//! cancellation or a handling error took it there — and never on an
//! aborted one.

use vstd::prelude::*;

use tokio::sync::mpsc;
use tokio_util::sync::CancellationToken;

use crate::act::close_mailbox;
use crate::act::try_recv_signal;
use crate::act::Act;
use crate::act::ActorSignal;
use crate::act::MailboxPoll;
use crate::actor::Actor;
use crate::actor::ActorId;
use crate::errors::ActorError;
use crate::token::cancel_token;
use crate::token::token_is_cancelled;

verus! {

/// The handle an actor receives to itself: its own address and a
/// non-suspending `exit` signal that cancels only this actor's token,
/// never its parent's.
#[verifier::reject_recursive_types(Msg)]
pub struct ActorSelf<Msg> {
    act: Act<Msg>,
    cancel: CancellationToken,
}

impl<Msg> View for ActorSelf<Msg> {
    type V = ActorId;

    /// The self-handle is abstracted by the identity of its actor.
    closed spec fn view(&self) -> ActorId {
        self.act@
    }
}

impl<Msg> ActorSelf<Msg> {
    pub fn new(act: Act<Msg>, cancel: CancellationToken) -> (r: ActorSelf<Msg>)
        ensures
            r@ == act@,
    {
        ActorSelf { act, cancel }
    }

    /// The actor's own address.
    pub fn act(&self) -> (r: &Act<Msg>)
        ensures
            r@ == self@,
    {
        &self.act
    }

    /// Requests this actor's own termination. Cancels only the actor's
    /// token; the finalize operation then runs when the task observes
    /// the cancellation.
    pub fn exit(&self) {
        cancel_token(&self.cancel);
    }
}

/// Which lifecycle phase of an actor task failed.
#[derive(Debug)]
pub enum ActorTaskError {
    /// The initialize operation failed; the actor never ran.
    Start(ActorError),
    /// A message-handling operation failed; the actor terminated.
    Receive(ActorError),
    /// The finalize operation failed; the actor still terminated.
    Exit(ActorError),
}

/// The lifecycle of one actor task.
#[derive(Debug, Clone, Copy, PartialEq, Eq, Structural)]
pub enum TaskPhase {
    /// The initialize operation has not completed.
    Starting,
    /// The receive loop is live.
    Running,
    /// Cancellation was observed; the finalize operation is running.
    Exiting,
    /// No further operation runs.
    Terminated,
}

/// What one quiescent drive step of a running task did.
pub enum TaskProgress {
    /// Nothing to do: no signal pending and no cancellation observed.
    Idle,
    /// One signal was dispatched to the actor.
    Handled,
    /// Cancellation was observed; the task finalized and terminated.
    Finished,
}

/// The state machine owning one actor instance: its self-handle, its
/// mailbox receiver, the instance, and the lifecycle phase. 1:1 with an
/// actor identity.
#[verifier::reject_recursive_types(A)]
pub struct ActorTask<A: Actor> {
    this: ActorSelf<A::Msg>,
    rx: mpsc::Receiver<ActorSignal<A::Msg>>,
    actor: Option<A>,
    phase: TaskPhase,
    finalized: bool,
}

impl<A: Actor> ActorTask<A> {
    /// The current lifecycle phase.
    pub closed spec fn phase(&self) -> TaskPhase {
        self.phase
    }

    /// Whether the actor's finalize operation has run.
    pub closed spec fn finalized(&self) -> bool {
        self.finalized
    }

    /// Whether the task holds a live actor instance.
    pub closed spec fn has_actor(&self) -> bool {
        self.actor is Some
    }

    /// The lifecycle invariant: the finalize operation only ever runs on
    /// the way into termination, and a task in its receive loop always
    /// holds an instance.
    pub open spec fn inv(&self) -> bool {
        &&& self.finalized() ==> self.phase() is Terminated
        &&& self.phase() is Running ==> self.has_actor()
    }

    /// Binds an address, its mailbox receiver and a cancellation token
    /// into a task about to initialize its actor.
    pub fn new(
        act: Act<A::Msg>,
        rx: mpsc::Receiver<ActorSignal<A::Msg>>,
        cancel: CancellationToken,
    ) -> (r: ActorTask<A>)
        ensures
            r.inv(),
            r.phase() is Starting,
            !r.finalized(),
    {
        ActorTask {
            this: ActorSelf::new(act, cancel),
            rx,
            actor: None,
            phase: TaskPhase::Starting,
            finalized: false,
        }
    }

    /// Runs the actor's initialize operation. On failure the task is
    /// terminated without ever entering the receive loop and without
    /// finalization, reported as a start error.
    pub fn start(&mut self, args: A::Args) -> (r: Result<(), ActorTaskError>)
        requires
            old(self).inv(),
            old(self).phase() is Starting,
        ensures
            final(self).inv(),
            !final(self).finalized(),
            r is Ok <==> final(self).phase() is Running,
            r matches Err(e) ==> e is Start && final(self).phase() is Terminated,
    {
        match A::start(&self.this, args) {
            Ok(actor) => {
                self.actor = Some(actor);
                self.phase = TaskPhase::Running;
                Ok(())
            },
            Err(e) => {
                self.phase = TaskPhase::Terminated;
                Err(ActorTaskError::Start(e))
            },
        }
    }

    /// Dispatches one mailbox signal to the actor's message-handling
    /// operation. A handling error terminates the task through the
    /// exiting phase — the mailbox closes and the finalize operation
    /// runs exactly once — and is reported as a receive error, which
    /// takes precedence over any failure of the finalizer itself.
    pub fn on_signal(&mut self, signal: ActorSignal<A::Msg>) -> (r: Result<(), ActorTaskError>)
        requires
            old(self).inv(),
            old(self).phase() is Running,
        ensures
            final(self).inv(),
            r is Ok <==> final(self).phase() is Running,
            r is Ok ==> !final(self).finalized(),
            r matches Err(e) ==> e is Receive && final(self).phase() is Terminated
                && final(self).finalized() && !old(self).finalized(),
    {
        let msg = signal.unwrap_msg();
        match &mut self.actor {
            Some(actor) => {
                match actor.receive(&self.this, msg) {
                    Ok(()) => Ok(()),
                    Err(e) => {
                        close_mailbox(&mut self.rx);
                        self.phase = TaskPhase::Exiting;
                        let _ = actor.exit();
                        self.phase = TaskPhase::Terminated;
                        self.finalized = true;
                        Err(ActorTaskError::Receive(e))
                    },
                }
            },
            None => {
                proof {
                    assert(false);
                }
                Ok(())
            },
        }
    }

    /// Reacts to the mailbox reporting that no signal can ever arrive
    /// again: the task requests cancellation of itself, to be observed
    /// on the next drive step.
    pub fn on_mailbox_closed(&self) {
        self.this.exit();
    }

    /// Reacts to cancellation, however it was triggered: closes the
    /// mailbox to further delivery and runs the actor's finalize
    /// operation exactly once. A finalize error is reported as an exit
    /// error but does not prevent termination.
    pub fn on_cancelled(&mut self) -> (r: Result<(), ActorTaskError>)
        requires
            old(self).inv(),
            old(self).phase() is Running,
        ensures
            final(self).inv(),
            final(self).phase() is Terminated,
            final(self).finalized(),
            !old(self).finalized(),
            r matches Err(e) ==> e is Exit,
    {
        close_mailbox(&mut self.rx);
        self.phase = TaskPhase::Exiting;
        let outcome = match &mut self.actor {
            Some(actor) => actor.exit(),
            None => {
                proof {
                    assert(false);
                }
                Ok(())
            },
        };
        self.phase = TaskPhase::Terminated;
        self.finalized = true;
        match outcome {
            Ok(()) => Ok(()),
            Err(e) => Err(ActorTaskError::Exit(e)),
        }
    }

    /// The mailbox receiver, for the surrounding runtime to await the
    /// next signal on; every decision about what a received signal or
    /// an observed cancellation means stays here.
    pub fn mailbox_mut(&mut self) -> &mut mpsc::Receiver<ActorSignal<A::Msg>> {
        &mut self.rx
    }

    /// One non-suspending drive step of a running task: observe
    /// cancellation and finalize, or dispatch the next pending signal,
    /// or — when the mailbox can never fill again — request the task's
    /// own cancellation.
    pub fn poll_once(&mut self) -> (r: Result<TaskProgress, ActorTaskError>)
        requires
            old(self).inv(),
            old(self).phase() is Running,
        ensures
            final(self).inv(),
            r matches Ok(p) && !(p is Finished) <==> final(self).phase() is Running,
            r matches Ok(p) && p is Finished ==> final(self).phase() is Terminated
                && final(self).finalized() && !old(self).finalized(),
            r matches Err(e) ==> final(self).phase() is Terminated && final(self).finalized()
                && (e is Receive || e is Exit),
            final(self).finalized() ==> final(self).phase() is Terminated,
    {
        if token_is_cancelled(&self.this.cancel) {
            match self.on_cancelled() {
                Ok(()) => Ok(TaskProgress::Finished),
                Err(e) => Err(e),
            }
        } else {
            match try_recv_signal(&mut self.rx) {
                MailboxPoll::Signal(signal) => {
                    match self.on_signal(signal) {
                        Ok(()) => Ok(TaskProgress::Handled),
                        Err(e) => Err(e),
                    }
                },
                MailboxPoll::Empty => Ok(TaskProgress::Idle),
                MailboxPoll::Disconnected => {
                    self.on_mailbox_closed();
                    Ok(TaskProgress::Idle)
                },
            }
        }
    }
}

/// A task that has run its finalize operation is terminated, and no
/// transition that runs the finalizer applies to a terminated task: the
/// finalize operation runs at most once over any task's lifetime.
pub proof fn lemma_finalize_at_most_once<A: Actor>(t: ActorTask<A>)
    requires
        t.inv(),
        t.finalized(),
    ensures
        t.phase() is Terminated,
{
}

/// A task that is still in its receive loop has not run its finalize
/// operation: force-killing it at that point skips finalization
/// entirely.
pub proof fn lemma_abort_skips_finalize<A: Actor>(t: ActorTask<A>)
    requires
        t.inv(),
        !(t.phase() is Terminated),
    ensures
        !t.finalized(),
{
}

} // verus!
