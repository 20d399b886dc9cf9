//! The semantics of a bounded actor mailbox, as a verified value: a
//! first-in-first-out queue with a fixed capacity and a closed flag.
//!
//! The running system carries signals over a shared channel whose
//! concurrent state no contract can pin down; this model states exactly
//! what enqueueing and draining mean — backpressure as `Full`, teardown
//! as `Closed`, delivery in enqueue order — and the ordering law below
//! is proved over it.

use vstd::prelude::*;

use std::collections::VecDeque;

use crate::errors::SendError;

verus! {

/// A bounded, closable first-in-first-out mailbox.
pub struct Mailbox<M> {
    queue: VecDeque<M>,
    capacity: usize,
    closed: bool,
}

impl<M> View for Mailbox<M> {
    type V = Seq<M>;

    /// The pending signals, oldest first.
    closed spec fn view(&self) -> Seq<M> {
        self.queue@
    }
}

impl<M> Mailbox<M> {
    /// The capacity fixed at creation.
    pub closed spec fn capacity(&self) -> usize {
        self.capacity
    }

    /// Whether the mailbox was closed to further delivery.
    pub closed spec fn is_closed(&self) -> bool {
        self.closed
    }

    /// A mailbox never holds more than its capacity.
    pub open spec fn inv(&self) -> bool {
        self@.len() <= self.capacity()
    }

    pub fn new(capacity: usize) -> (r: Mailbox<M>)
        requires
            capacity >= 1,
        ensures
            r.inv(),
            r@ == Seq::<M>::empty(),
            r.capacity() == capacity,
            !r.is_closed(),
    {
        Mailbox { queue: VecDeque::new(), capacity, closed: false }
    }

    /// Enqueues the message or fails immediately: `Closed` once the
    /// mailbox was closed, `Full` at capacity; otherwise the message is
    /// appended behind everything already pending. The rejected message
    /// is handed back intact and the queue is untouched.
    pub fn try_push(&mut self, msg: M) -> (r: Result<(), SendError<M>>)
        requires
            old(self).inv(),
        ensures
            final(self).inv(),
            final(self).capacity() == old(self).capacity(),
            final(self).is_closed() == old(self).is_closed(),
            old(self).is_closed()
                ==> r == Result::<(), SendError<M>>::Err(SendError::Closed(msg))
                    && final(self)@ == old(self)@,
            !old(self).is_closed() && old(self)@.len() == old(self).capacity()
                ==> r == Result::<(), SendError<M>>::Err(SendError::Full(msg))
                    && final(self)@ == old(self)@,
            !old(self).is_closed() && old(self)@.len() < old(self).capacity()
                ==> r is Ok && final(self)@ == old(self)@.push(msg),
    {
        if self.closed {
            Err(SendError::Closed(msg))
        } else if self.queue.len() == self.capacity {
            Err(SendError::Full(msg))
        } else {
            self.queue.push_back(msg);
            Ok(())
        }
    }

    /// Dequeues the oldest pending message, if any. Delivery therefore
    /// observes messages exactly in enqueue order.
    pub fn pop(&mut self) -> (r: Option<M>)
        requires
            old(self).inv(),
        ensures
            final(self).inv(),
            final(self).capacity() == old(self).capacity(),
            final(self).is_closed() == old(self).is_closed(),
            old(self)@.len() == 0 ==> r is None && final(self)@ == old(self)@,
            old(self)@.len() > 0
                ==> r == Some(old(self)@[0])
                    && final(self)@ == old(self)@.subrange(1, old(self)@.len() as int),
    {
        self.queue.pop_front()
    }

    /// Closes the mailbox to further delivery; already-pending messages
    /// stay and can still be drained.
    pub fn close(&mut self)
        requires
            old(self).inv(),
        ensures
            final(self).inv(),
            final(self).capacity() == old(self).capacity(),
            final(self).is_closed(),
            final(self)@ == old(self)@,
    {
        self.closed = true;
    }

    /// How many messages are pending.
    pub fn len(&self) -> (r: usize)
        ensures
            r == self@.len(),
    {
        self.queue.len()
    }
}

/// Per-sender ordering: a message enqueued earlier by one sender sits at
/// a lower index than one that sender enqueues later, no matter what
/// other senders enqueue in between; and since delivery dequeues by
/// increasing index, the earlier message is observed first.
pub proof fn lemma_per_sender_fifo<M>(pending: Seq<M>, between: Seq<M>, first: M, second: M)
    ensures
        ({
            let after_first = pending.push(first) + between;
            let after_second = after_first.push(second);
            &&& after_second[pending.len() as int] == first
            &&& after_second[after_first.len() as int] == second
            &&& pending.len() < after_first.len()
        }),
{
}

} // verus!
