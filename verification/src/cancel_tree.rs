//! The cancellation lineage as a verified tree: each node holds a
//! reference to its parent, and a node counts as cancelled when its own
//! flag or any ancestor's flag is set.
//!
//! This is the meaning the runtime assigns to its cancellation tokens:
//! cancelling a scope cancels its whole subtree, cancellation never
//! flows upward to a parent nor sideways to a sibling, and it is
//! level-triggered — observing it is idempotent and it never resets.
//! The laws below prove each of those statements.

use vstd::prelude::*;

verus! {

/// Node `i`'s ancestor chain — `i` itself included — passes through `a`.
pub open spec fn chain_reaches(parents: Seq<usize>, i: int, a: int) -> bool
    decreases i,
{
    if !(0 <= i < parents.len()) {
        false
    } else if i == a {
        true
    } else if parents[i] < i {
        chain_reaches(parents, parents[i] as int, a)
    } else {
        false
    }
}

/// Node `i`'s own flag, or some ancestor's flag, is set.
pub open spec fn lineage_cancelled(parents: Seq<usize>, flags: Seq<bool>, i: int) -> bool
    decreases i,
{
    if !(0 <= i < parents.len() && parents.len() == flags.len()) {
        false
    } else if flags[i] {
        true
    } else if parents[i] < i {
        lineage_cancelled(parents, flags, parents[i] as int)
    } else {
        false
    }
}

/// An explicit tree of cancellation nodes. A root is its own parent;
/// every other node points at an earlier node.
pub struct CancelTree {
    parents: Vec<usize>,
    flags: Vec<bool>,
}

impl CancelTree {
    /// The parent of each node.
    pub closed spec fn parents(&self) -> Seq<usize> {
        self.parents@
    }

    /// The cancel flag of each node.
    pub closed spec fn flags(&self) -> Seq<bool> {
        self.flags@
    }

    /// How many nodes exist.
    pub open spec fn node_count(&self) -> int {
        self.parents().len() as int
    }

    /// Parents precede their children, so every ancestor chain is
    /// finite and never leaves the tree.
    pub open spec fn wf(&self) -> bool {
        &&& self.parents().len() == self.flags().len()
        &&& forall|i: int|
            0 <= i < self.parents().len() ==> #[trigger] self.parents()[i] <= i
    }

    /// Whether node `i` is cancelled: its own flag or an ancestor's.
    pub open spec fn cancelled_spec(&self, i: int) -> bool {
        lineage_cancelled(self.parents(), self.flags(), i)
    }

    /// Whether `a` is on node `i`'s ancestor chain (`i` included).
    pub open spec fn reaches(&self, i: int, a: int) -> bool {
        chain_reaches(self.parents(), i, a)
    }

    pub fn new() -> (r: CancelTree)
        ensures
            r.wf(),
            r.node_count() == 0,
    {
        CancelTree { parents: Vec::new(), flags: Vec::new() }
    }

    /// Adds a root: a node with no ancestors, not yet cancelled.
    pub fn add_root(&mut self) -> (r: usize)
        requires
            old(self).wf(),
            old(self).node_count() < usize::MAX,
        ensures
            final(self).wf(),
            r == old(self).node_count(),
            final(self).parents() == old(self).parents().push(r),
            final(self).flags() == old(self).flags().push(false),
    {
        let id = self.parents.len();
        self.parents.push(id);
        self.flags.push(false);
        id
    }

    /// Derives a child node: cancelled exactly when itself or any of
    /// `parent`'s lineage is cancelled.
    pub fn add_child(&mut self, parent: usize) -> (r: usize)
        requires
            old(self).wf(),
            parent < old(self).node_count(),
            old(self).node_count() < usize::MAX,
        ensures
            final(self).wf(),
            r == old(self).node_count(),
            final(self).parents() == old(self).parents().push(parent),
            final(self).flags() == old(self).flags().push(false),
    {
        let id = self.parents.len();
        self.parents.push(parent);
        self.flags.push(false);
        id
    }

    /// Requests cancellation of node `i`: sets its flag and touches
    /// nothing else. Every descendant becomes cancelled by lineage.
    pub fn cancel(&mut self, i: usize)
        requires
            old(self).wf(),
            i < old(self).node_count(),
        ensures
            final(self).wf(),
            final(self).parents() == old(self).parents(),
            final(self).flags() == old(self).flags().update(i as int, true),
    {
        self.flags.set(i, true);
    }

    /// Whether node `i` observes cancellation, walking its ancestor
    /// chain.
    pub fn is_cancelled(&self, i: usize) -> (r: bool)
        requires
            self.wf(),
            i < self.node_count(),
        ensures
            r == self.cancelled_spec(i as int),
    {
        let mut cur: usize = i;
        loop
            invariant
                self.wf(),
                cur < self.node_count(),
                self.cancelled_spec(i as int) == self.cancelled_spec(cur as int),
            decreases cur,
        {
            if self.flags[cur] {
                return true;
            }
            let parent = self.parents[cur];
            if parent == cur {
                return false;
            }
            cur = parent;
        }
    }
}

/// Cancelling a node cancels its whole subtree: every node whose
/// ancestor chain passes through the cancelled node observes
/// cancellation.
pub proof fn lemma_cancel_reaches_descendants(
    parents: Seq<usize>,
    flags: Seq<bool>,
    a: int,
    j: int,
)
    requires
        parents.len() == flags.len(),
        0 <= a < parents.len(),
        0 <= j < parents.len(),
        chain_reaches(parents, j, a),
        flags[a],
    ensures
        lineage_cancelled(parents, flags, j),
    decreases j,
{
    if j != a {
        lemma_cancel_reaches_descendants(parents, flags, a, parents[j] as int);
    }
}

/// Cancellation never flows upward or sideways: a node whose ancestor
/// chain does not pass through the cancelled node observes exactly what
/// it observed before.
pub proof fn lemma_cancel_only_descendants(parents: Seq<usize>, flags: Seq<bool>, a: int, j: int)
    requires
        parents.len() == flags.len(),
        0 <= a < parents.len(),
        0 <= j < parents.len(),
        !chain_reaches(parents, j, a),
    ensures
        lineage_cancelled(parents, flags.update(a, true), j) == lineage_cancelled(
            parents,
            flags,
            j,
        ),
    decreases j,
{
    if parents[j] < j {
        lemma_cancel_only_descendants(parents, flags, a, parents[j] as int);
    }
}

/// Cancellation is level-triggered and never resets: whatever was
/// cancelled stays cancelled after any further cancel request.
pub proof fn lemma_cancel_monotone(parents: Seq<usize>, flags: Seq<bool>, a: int, j: int)
    requires
        parents.len() == flags.len(),
        0 <= a < parents.len(),
        lineage_cancelled(parents, flags, j),
    ensures
        lineage_cancelled(parents, flags.update(a, true), j),
    decreases j,
{
    if 0 <= j < parents.len() && !flags.update(a, true)[j] && parents[j] < j {
        lemma_cancel_monotone(parents, flags, a, parents[j] as int);
    }
}

/// Observing cancellation is idempotent: requesting it twice leaves the
/// very state one request leaves.
pub proof fn lemma_cancel_idempotent(flags: Seq<bool>, a: int)
    requires
        0 <= a < flags.len(),
    ensures
        flags.update(a, true).update(a, true) == flags.update(a, true),
{
    assert(flags.update(a, true).update(a, true) =~= flags.update(a, true));
}

} // verus!
