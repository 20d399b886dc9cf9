//! Addresses and reply capsules: the typed send-handles into an actor's
//! bounded mailbox, and the single-use slot a call awaits its answer on.
//!
//! The channels themselves come from an outside crate; every call into
//! them stands behind a small trusted wrapper whose contract states what
//! that crate's source shows. Everything around the calls is verified.

use vstd::prelude::*;

use tokio::sync::mpsc;
use tokio::sync::oneshot;

use crate::actor::ActorId;
use crate::errors::CallError;
use crate::errors::SendError;

verus! {

#[verifier::external_type_specification]
#[verifier::external_body]
#[verifier::reject_recursive_types(T)]
pub struct ExMpscSender<T>(mpsc::Sender<T>);

#[verifier::external_type_specification]
#[verifier::external_body]
#[verifier::reject_recursive_types(T)]
pub struct ExMpscReceiver<T>(mpsc::Receiver<T>);

#[verifier::external_type_specification]
#[verifier::external_body]
#[verifier::reject_recursive_types(T)]
pub struct ExOneshotSender<T>(oneshot::Sender<T>);

/// An envelope wrapping exactly one application message per mailbox
/// entry; structured so that non-message control signals can be added
/// later without changing the wire shape.
#[derive(Debug)]
pub enum ActorSignal<M> {
    Msg(M),
}

impl<M> ActorSignal<M> {
    /// Extracts the application message carried by the signal.
    pub fn unwrap_msg(self) -> (r: M)
        ensures
            self == ActorSignal::Msg(r),
    {
        match self {
            ActorSignal::Msg(msg) => msg,
        }
    }
}

/// What one attempt to take a signal out of a mailbox found.
pub(crate) enum MailboxPoll<M> {
    /// A signal was dequeued.
    Signal(ActorSignal<M>),
    /// The mailbox is currently empty but senders still exist.
    Empty,
    /// The mailbox is empty and no sender can ever enqueue again.
    Disconnected,
}

/// Relies on tokio::sync::mpsc::channel: creates a bounded channel with
/// the given capacity. The constructor panics on a zero capacity, so
/// that input is excluded.
#[verifier::external_body]
pub(crate) fn signal_channel<M>(capacity: usize) -> (r: (
    mpsc::Sender<ActorSignal<M>>,
    mpsc::Receiver<ActorSignal<M>>,
))
    requires
        capacity >= 1,
{
    mpsc::channel(capacity)
}

/// Relies on tokio::sync::mpsc::Sender::try_send: enqueues without ever
/// suspending, or reports the channel full or closed, handing the
/// rejected signal back inside the error.
#[verifier::external_body]
fn try_send_signal<M>(
    tx: &mpsc::Sender<ActorSignal<M>>,
    signal: ActorSignal<M>,
) -> (r: Result<(), SendError<ActorSignal<M>>>)
    ensures
        r matches Err(SendError::Full(s)) ==> s == signal,
        r matches Err(SendError::Closed(s)) ==> s == signal,
{
    match tx.try_send(signal) {
        Ok(()) => Ok(()),
        Err(mpsc::error::TrySendError::Full(s)) => Err(SendError::Full(s)),
        Err(mpsc::error::TrySendError::Closed(s)) => Err(SendError::Closed(s)),
    }
}

/// Relies on tokio::sync::mpsc::Receiver::try_recv: dequeues without
/// ever suspending, or reports the mailbox empty or disconnected.
#[verifier::external_body]
pub(crate) fn try_recv_signal<M>(rx: &mut mpsc::Receiver<ActorSignal<M>>) -> (r: MailboxPoll<M>) {
    match rx.try_recv() {
        Ok(signal) => MailboxPoll::Signal(signal),
        Err(mpsc::error::TryRecvError::Empty) => MailboxPoll::Empty,
        Err(mpsc::error::TryRecvError::Disconnected) => MailboxPoll::Disconnected,
    }
}

/// Relies on tokio::sync::mpsc::Receiver::close: closes the mailbox to
/// further delivery; already-enqueued signals can still be drained.
#[verifier::external_body]
pub(crate) fn close_mailbox<M>(rx: &mut mpsc::Receiver<ActorSignal<M>>) {
    rx.close()
}

/// Relies on the Clone impl of tokio::sync::mpsc::Sender: every clone
/// feeds the same mailbox.
#[verifier::external_body]
fn clone_sender<M>(tx: &mpsc::Sender<ActorSignal<M>>) -> (r: mpsc::Sender<ActorSignal<M>>) {
    tx.clone()
}

/// The handle a caller awaits a reply capsule's fulfillment on. Verus
/// refuses to look inside the underlying single-use receiver, so it is
/// held opaquely; the asynchronous shell may await the inner handle
/// directly.
#[verifier::external_body]
#[verifier::reject_recursive_types(T)]
pub struct ReplyReceiver<T> {
    pub rx: oneshot::Receiver<T>,
}

/// Relies on tokio::sync::oneshot::channel: creates a fresh single-use
/// slot and the handle that awaits it.
#[verifier::external_body]
pub(crate) fn reply_channel<T>() -> (r: (oneshot::Sender<T>, ReplyReceiver<T>)) {
    let (tx, rx) = oneshot::channel();
    (tx, ReplyReceiver { rx })
}

/// Relies on tokio::sync::oneshot::Sender::send: delivers the value
/// unless the receiving side is already gone, in which case the value is
/// handed back.
#[verifier::external_body]
fn send_reply_value<T>(tx: oneshot::Sender<T>, value: T) -> (r: Result<(), T>)
    ensures
        r matches Err(v) ==> v == value,
{
    tx.send(value)
}

/// What one attempt to take a value out of a reply slot found.
pub enum ReplyPoll<T> {
    /// The answer arrived.
    Ready(T),
    /// No answer yet, but the answering side still holds the capsule.
    Pending,
    /// The answering side dropped the capsule; no answer will ever come.
    Closed,
}

/// Relies on tokio::sync::oneshot::Receiver::try_recv: takes the value
/// if one was sent, without ever suspending.
#[verifier::external_body]
fn try_recv_reply<T>(rx: &mut ReplyReceiver<T>) -> (r: ReplyPoll<T>) {
    match rx.rx.try_recv() {
        Ok(value) => ReplyPoll::Ready(value),
        Err(oneshot::error::TryRecvError::Empty) => ReplyPoll::Pending,
        Err(oneshot::error::TryRecvError::Closed) => ReplyPoll::Closed,
    }
}

impl<T> ReplyReceiver<T> {
    /// Takes the fulfilled value if it already arrived, without ever
    /// suspending; the suspending wait belongs to the surrounding
    /// runtime, which may await the inner handle directly.
    pub fn poll(&mut self) -> (r: ReplyPoll<T>) {
        try_recv_reply(self)
    }
}

/// A single-use, typed delivery slot embedded inside a message so the
/// sender can await a typed result. Consumed by value: fulfilling it
/// twice is impossible.
#[derive(Debug)]
#[verifier::reject_recursive_types(T)]
pub struct Reply<T> {
    tx: oneshot::Sender<T>,
}

impl<T> Reply<T> {
    pub fn new(tx: oneshot::Sender<T>) -> (r: Reply<T>) {
        Reply { tx }
    }

    /// Creates a fresh capsule together with the handle on which its
    /// fulfillment is awaited.
    pub fn slot() -> (r: (Reply<T>, ReplyReceiver<T>)) {
        let (tx, rx) = reply_channel();
        (Reply { tx }, rx)
    }

    /// Delivers the result. Fails only when the caller's waiting side
    /// is gone, handing the value back; a capacity failure cannot occur
    /// on a single-use slot.
    pub fn send(self, value: T) -> (r: Result<(), SendError<T>>)
        ensures
            r matches Err(e) ==> e matches SendError::Closed(v) && v == value,
    {
        match send_reply_value(self.tx, value) {
            Ok(()) => Ok(()),
            Err(v) => Err(SendError::Closed(v)),
        }
    }
}

/// A cloneable, typed handle to one actor's mailbox: the only way to
/// send the actor messages. Dropping every handle does not stop the
/// actor; it only makes the mailbox unreachable for new sends.
#[derive(Debug)]
#[verifier::reject_recursive_types(Msg)]
pub struct Act<Msg> {
    id: ActorId,
    tx: mpsc::Sender<ActorSignal<Msg>>,
}

impl<Msg> View for Act<Msg> {
    type V = ActorId;

    /// An address is abstracted by the identity of the actor it names.
    closed spec fn view(&self) -> ActorId {
        self.id
    }
}

impl<Msg> Act<Msg> {
    pub fn new(id: ActorId, tx: mpsc::Sender<ActorSignal<Msg>>) -> (r: Act<Msg>)
        ensures
            r@ == id,
    {
        Act { id, tx }
    }

    /// The identity of the actor this handle addresses.
    pub fn id(&self) -> (r: ActorId)
        ensures
            r == self@,
    {
        self.id
    }

    /// A fresh sender into the same mailbox.
    pub fn tx(&self) -> (r: mpsc::Sender<ActorSignal<Msg>>) {
        clone_sender(&self.tx)
    }

    /// Wraps a message into the one-per-entry mailbox envelope.
    fn create_signal(&self, msg: Msg) -> (r: ActorSignal<Msg>)
        ensures
            r == ActorSignal::Msg(msg),
    {
        ActorSignal::Msg(msg)
    }

    /// Enqueues the message or fails immediately: `Full` when the
    /// mailbox is at capacity, `Closed` when the receiving task is gone.
    /// Never suspends, and the rejected message is handed back intact.
    pub fn try_cast(&self, msg: Msg) -> (r: Result<(), SendError<Msg>>)
        ensures
            r matches Err(SendError::Full(m)) ==> m == msg,
            r matches Err(SendError::Closed(m)) ==> m == msg,
    {
        let signal = self.create_signal(msg);
        match try_send_signal(&self.tx, signal) {
            Ok(()) => Ok(()),
            Err(SendError::Full(s)) => Err(SendError::Full(s.unwrap_msg())),
            Err(SendError::Closed(s)) => Err(SendError::Closed(s.unwrap_msg())),
        }
    }
}

/// The suspension-free prologue of a call: a fresh reply capsule and
/// the message the builder wraps around it, together with the receiver
/// the typed reply arrives on. The sending itself is the caller's.
pub fn prepare_call<T, Msg, F: FnOnce(Reply<T>) -> Msg>(build: F) -> (r: (Msg, ReplyReceiver<T>))
    requires
        forall|capsule: Reply<T>| #[trigger] build.requires((capsule,)),
    ensures
        exists|capsule: Reply<T>| call_ensures(build, (capsule,), r.0),
{
    let (reply, rx) = Reply::slot();
    let ghost capsule = reply;
    let msg = build(reply);
    let r = (msg, rx);
    proof {
        assert(call_ensures(build, (capsule,), r.0));
        assert(exists|c: Reply<T>| call_ensures(build, (c,), r.0));
    }
    r
}

impl<Msg> Act<Msg> {
    /// The non-suspending half of a call: builds the message around a
    /// fresh reply capsule, enqueues it without suspending, and hands
    /// back the receiver the typed reply arrives on. Failure at this
    /// stage is always a send failure, never a reception one, and it
    /// hands back exactly the message the builder made.
    pub fn try_call_slot<T, F: FnOnce(Reply<T>) -> Msg>(&self, build: F) -> (r: Result<
        ReplyReceiver<T>,
        CallError<Msg>,
    >)
        requires
            forall|capsule: Reply<T>| #[trigger] build.requires((capsule,)),
        ensures
            !(r matches Err(CallError::Recv(_))),
            r matches Err(CallError::Send(SendError::Full(m))) ==> exists|capsule: Reply<T>|
                call_ensures(build, (capsule,), m),
            r matches Err(CallError::Send(SendError::Closed(m))) ==> exists|capsule: Reply<T>|
                call_ensures(build, (capsule,), m),
    {
        let (msg, rx) = prepare_call(build);
        match self.try_cast(msg) {
            Ok(()) => Ok(rx),
            Err(e) => Err(CallError::Send(e)),
        }
    }
}

impl<Msg> Clone for Act<Msg> {
    /// A clone addresses the same actor through the same mailbox.
    fn clone(&self) -> (r: Self)
        ensures
            r@ == self@,
    {
        Act { id: self.id, tx: clone_sender(&self.tx) }
    }
}

} // verus!
