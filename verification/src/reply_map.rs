//! The reply table: the process-local correlation map from a numeric id
//! to the pending reply capsule of a call that crossed a serialization
//! boundary.
//!
//! Ids are nonzero — zero marks a one-way envelope — and each occupied
//! slot is freed exactly once, by fulfillment or removal; taking an id
//! out a second time, or taking an id that was never registered, yields
//! nothing. The contracts state this slot discipline exactly.

use vstd::prelude::*;

use crate::act::Reply;

verus! {

/// A correlation table for pending replies expecting a `T`.
#[verifier::reject_recursive_types(T)]
pub struct ReplyMap<T> {
    slots: Vec<Option<Reply<T>>>,
}

impl<T> ReplyMap<T> {
    /// The slot array; the id of the slot at position `k` is `k + 1`.
    pub closed spec fn slots(&self) -> Seq<Option<Reply<T>>> {
        self.slots@
    }

    /// Whether a pending capsule is registered under `id`.
    pub open spec fn occupied(&self, id: int) -> bool {
        1 <= id <= self.slots().len() && self.slots()[id - 1] is Some
    }

    /// The capsule registered under `id`.
    pub open spec fn stored(&self, id: int) -> Reply<T>
        recommends
            self.occupied(id),
    {
        self.slots()[id - 1]->0
    }

    /// Whether one more capsule can be registered.
    pub open spec fn can_register(&self) -> bool {
        self.slots().len() < usize::MAX
    }

    pub fn new() -> (r: ReplyMap<T>)
        ensures
            r.slots() == Seq::<Option<Reply<T>>>::empty(),
            forall|id: int| !r.occupied(id),
    {
        ReplyMap { slots: Vec::new() }
    }

    /// Registers a capsule under a fresh nonzero id: the lowest id not
    /// currently occupied. No other slot is touched.
    pub fn insert_reply(&mut self, reply: Reply<T>) -> (id: usize)
        requires
            old(self).can_register(),
        ensures
            id >= 1,
            !old(self).occupied(id as int),
            final(self).occupied(id as int),
            final(self).stored(id as int) == reply,
            forall|k: int| 1 <= k < id ==> old(self).occupied(k),
            forall|k: int|
                k != id ==> final(self).occupied(k) == old(self).occupied(k),
            forall|k: int|
                k != id && old(self).occupied(k) ==> final(self).stored(k) == old(self).stored(k),
    {
        let mut i: usize = 0;
        while i < self.slots.len()
            invariant
                self == old(self),
                i <= self.slots().len(),
                forall|k: int| 0 <= k < i ==> self.slots()[k] is Some,
            decreases self.slots().len() - i,
        {
            if self.slots[i].is_none() {
                let removed = self.slots.remove(i);
                self.slots.insert(i, Some(reply));
                proof {
                    assert(final(self).slots() =~= old(self).slots().update(
                        i as int,
                        Some(reply),
                    ));
                }
                return i + 1;
            }
            i = i + 1;
        }
        self.slots.push(Some(reply));
        i + 1
    }

    /// Takes the capsule registered under `id` out of the table. Yields
    /// it exactly when `id` is occupied; afterwards `id` is free, so a
    /// second take — or a take of an id never registered — yields
    /// nothing. No other slot is touched.
    pub fn get_reply(&mut self, id: usize) -> (r: Option<Reply<T>>)
        ensures
            r is Some <==> old(self).occupied(id as int),
            r matches Some(reply) ==> reply == old(self).stored(id as int),
            !final(self).occupied(id as int),
            forall|k: int|
                k != id ==> final(self).occupied(k) == old(self).occupied(k),
            forall|k: int|
                k != id && old(self).occupied(k) ==> final(self).stored(k) == old(self).stored(k),
    {
        if id >= 1 && id <= self.slots.len() {
            let taken = self.slots.remove(id - 1);
            self.slots.insert(id - 1, None);
            proof {
                assert(final(self).slots() =~= old(self).slots().update(id - 1, None));
            }
            taken
        } else {
            None
        }
    }

    /// How many ids are currently occupied somewhere in the table; the
    /// table itself, not the ids, bounds registration.
    pub fn slot_count(&self) -> (r: usize)
        ensures
            r == self.slots().len(),
    {
        self.slots.len()
    }
}

impl<T> Default for ReplyMap<T> {
    /// An empty table: no id is occupied.
    fn default() -> (r: ReplyMap<T>)
        ensures
            forall|id: int| !r.occupied(id),
    {
        ReplyMap::new()
    }
}

} // verus!
