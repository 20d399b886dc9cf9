//! Scopes: supervisory groupings of actor tasks sharing a cancellation
//! lineage.
//!
//! A scope allocates actor identities monotonically, keeps the registry
//! of its live actors — identities unique, each holding the task's
//! abort handle and cancellation token — and categorizes finished
//! tasks' outcomes. The aggregator that awaits task completion is the
//! surrounding runtime's; it feeds results back in here for bookkeeping
//! and categorization.

use vstd::prelude::*;

use tokio::task::AbortHandle;
use tokio::task::JoinError;
use tokio_util::sync::CancellationToken;

use crate::act::signal_channel;
use crate::act::Act;
use crate::act::ActorSignal;
use crate::actor::ActorId;
use crate::task::ActorTaskError;
use crate::token::child_token;
use crate::token::clone_token;
use crate::token::new_token;
use crate::token::token_is_cancelled;

verus! {

#[verifier::external_type_specification]
#[verifier::external_body]
pub struct ExAbortHandle(AbortHandle);

#[verifier::external_type_specification]
#[verifier::external_body]
pub struct ExJoinError(JoinError);

/// Relies on tokio::task::AbortHandle::abort: requests the hard
/// termination of the task, skipping any finalization it never reached;
/// a finished task is unaffected.
#[verifier::external_body]
fn abort_task(handle: &AbortHandle) {
    handle.abort()
}

/// Relies on tokio::task::JoinError::is_cancelled: whether the task was
/// aborted.
#[verifier::external_body]
fn join_error_is_cancelled(err: &JoinError) -> (r: bool) {
    err.is_cancelled()
}

/// Relies on tokio::task::JoinError::is_panic: whether the task unwound.
#[verifier::external_body]
fn join_error_is_panic(err: &JoinError) -> (r: bool) {
    err.is_panic()
}

/// The root context every scope of one runtime shares: the scope
/// sequence counter and the cancellation root. Passed by reference to
/// whichever component creates scopes; there is no implicit global.
pub struct ScopeContext {
    next_scope_id: u32,
    cancel: CancellationToken,
}

impl ScopeContext {
    /// How many scope identities have been handed out.
    pub closed spec fn next_id(&self) -> u32 {
        self.next_scope_id
    }

    pub fn new() -> (r: ScopeContext)
        ensures
            r.next_id() == 0,
    {
        ScopeContext { next_scope_id: 0, cancel: new_token() }
    }

    /// The next scope sequence number to be handed out, so a caller can
    /// test that the counter has room before creating a scope.
    pub fn next_scope_id(&self) -> (r: u32)
        ensures
            r == self.next_id(),
    {
        self.next_scope_id
    }
}

/// The categorized outcome of one finished actor task.
pub enum ActorOutput {
    /// The task ran to graceful termination.
    Success,
    /// A lifecycle operation failed; which one is inside.
    Failed(ActorTaskError),
    /// The task was explicitly killed, bypassing finalization.
    Aborted,
    /// An unwind inside the task was captured at the spawn boundary.
    Panicked,
    /// The join infrastructure itself failed.
    Unknown(JoinError),
}

/// Categorizes the result an actor task returned: graceful termination
/// or the reported lifecycle failure.
pub fn output_of_task_result(result: Result<(), ActorTaskError>) -> (r: ActorOutput)
    ensures
        result is Ok <==> r is Success,
        result matches Err(e) ==> r == ActorOutput::Failed(e),
{
    match result {
        Ok(()) => ActorOutput::Success,
        Err(e) => ActorOutput::Failed(e),
    }
}

/// Categorizes a join failure from the flags the join layer reports:
/// an abort, a captured unwind, or an infrastructure failure.
pub fn classify_join_failure(cancelled: bool, panicked: bool, err: JoinError) -> (r: ActorOutput)
    ensures
        cancelled ==> r is Aborted,
        !cancelled && panicked ==> r is Panicked,
        !cancelled && !panicked ==> r == ActorOutput::Unknown(err),
{
    if cancelled {
        ActorOutput::Aborted
    } else if panicked {
        ActorOutput::Panicked
    } else {
        ActorOutput::Unknown(err)
    }
}

/// Categorizes a join failure, asking the join layer which kind it was.
/// Whatever it answers, the outcome is never mistaken for a task that
/// ran: it is an abort, a captured unwind, or an infrastructure failure.
pub fn output_of_join_failure(err: JoinError) -> (r: ActorOutput)
    ensures
        r is Aborted || r is Panicked || r is Unknown,
{
    let cancelled = join_error_is_cancelled(&err);
    let panicked = join_error_is_panic(&err);
    classify_join_failure(cancelled, panicked, err)
}

/// The registry entry of one live actor: its abort handle for hard
/// kills and its own cancellation token.
struct ActorEntry {
    id: ActorId,
    handle: AbortHandle,
    cancel: CancellationToken,
}

/// Everything the surrounding runtime needs to launch one actor task:
/// its identity, the address callers will hold, the mailbox receiver,
/// and the task's cancellation token, derived from the scope's.
#[verifier::reject_recursive_types(Msg)]
pub struct SpawnSlot<Msg> {
    pub id: ActorId,
    pub act: Act<Msg>,
    pub rx: tokio::sync::mpsc::Receiver<ActorSignal<Msg>>,
    pub cancel: CancellationToken,
}

/// A supervisory grouping of actor tasks: a monotonic actor counter, the
/// registry of live actors, and a cancellation token derived from the
/// parent scope's (or the root context's) token.
pub struct Scope {
    id: u32,
    next_actor_id: u32,
    actors: Vec<ActorEntry>,
    cancel: CancellationToken,
}

impl Scope {
    /// This scope's sequence number.
    pub closed spec fn scope_id(&self) -> u32 {
        self.id
    }

    /// How many actor identities this scope has handed out.
    pub closed spec fn next_actor(&self) -> u32 {
        self.next_actor_id
    }

    /// The next actor sequence number to be handed out, so a caller can
    /// test that the counter has room before spawning.
    pub fn next_actor_id(&self) -> (r: u32)
        ensures
            r == self.next_actor(),
    {
        self.next_actor_id
    }

    /// The identities currently registered, in registration order.
    pub closed spec fn ids(&self) -> Seq<ActorId> {
        self.actors@.map_values(|e: ActorEntry| e.id)
    }

    /// Whether an actor is registered, i.e. spawned and not yet reaped.
    pub open spec fn registered(&self, id: ActorId) -> bool {
        self.ids().contains(id)
    }

    /// Registered identities all belong to this scope, sit below the
    /// counter — so a fresh identity never collides — and are unique.
    pub open spec fn inv(&self) -> bool {
        &&& forall|i: int| #![trigger self.ids()[i]]
            0 <= i < self.ids().len() ==> self.ids()[i].0 == self.scope_id() && self.ids()[i].1
                < self.next_actor()
        &&& forall|i: int, j: int| #![trigger self.ids()[i], self.ids()[j]]
            0 <= i < j < self.ids().len() ==> self.ids()[i] != self.ids()[j]
    }

    /// A scope under the root context: takes the next scope identity and
    /// derives its cancellation token from the context's root token.
    pub fn new(context: &mut ScopeContext) -> (r: Scope)
        requires
            old(context).next_id() < u32::MAX,
        ensures
            r.inv(),
            r.scope_id() == old(context).next_id(),
            final(context).next_id() == old(context).next_id() + 1,
            r.next_actor() == 0,
            r.ids() == Seq::<ActorId>::empty(),
    {
        let id = context.next_scope_id;
        context.next_scope_id = context.next_scope_id + 1;
        let cancel = child_token(&context.cancel);
        Scope { id, next_actor_id: 0, actors: Vec::new(), cancel }
    }

    /// A child scope: a fresh scope identity from the shared context and
    /// a cancellation token derived from this scope's token, so that
    /// cancelling the parent cancels the child's actors too.
    pub fn child_scope(&self, context: &mut ScopeContext) -> (r: Scope)
        requires
            old(context).next_id() < u32::MAX,
        ensures
            r.inv(),
            r.scope_id() == old(context).next_id(),
            final(context).next_id() == old(context).next_id() + 1,
            r.next_actor() == 0,
            r.ids() == Seq::<ActorId>::empty(),
    {
        let id = context.next_scope_id;
        context.next_scope_id = context.next_scope_id + 1;
        let cancel = child_token(&self.cancel);
        Scope { id, next_actor_id: 0, actors: Vec::new(), cancel }
    }

    /// Allocates the next actor identity, its bounded mailbox and
    /// address, and a cancellation token derived from the scope's.
    /// Yields nothing — and allocates nothing — when the scope is
    /// already cancelled: a cancelled scope spawns no actor.
    pub fn prepare_spawn<Msg>(&mut self, capacity: usize) -> (r: Option<SpawnSlot<Msg>>)
        requires
            old(self).inv(),
            old(self).next_actor() < u32::MAX,
            capacity >= 1,
        ensures
            final(self).inv(),
            final(self).scope_id() == old(self).scope_id(),
            final(self).ids() == old(self).ids(),
            r matches Some(slot) ==> {
                &&& slot.id == ActorId(old(self).scope_id(), old(self).next_actor())
                &&& slot.act@ == slot.id
                &&& !old(self).registered(slot.id)
                &&& final(self).next_actor() == old(self).next_actor() + 1
            },
            r is None ==> final(self).next_actor() == old(self).next_actor(),
    {
        if token_is_cancelled(&self.cancel) {
            return None;
        }
        let id = ActorId(self.id, self.next_actor_id);
        self.next_actor_id = self.next_actor_id + 1;
        let (tx, rx) = signal_channel(capacity);
        let act = Act::new(id, tx);
        let cancel = child_token(&self.cancel);
        proof {
            assert(self.ids() =~= old(self).ids());
        }
        Some(SpawnSlot { id, act, rx, cancel })
    }

    /// Records a launched task in the registry under its identity.
    /// Accepts exactly the identities this scope allocated and has not
    /// reaped or reused: fresh below the counter, owned by this scope,
    /// not currently registered.
    pub fn record_spawn(
        &mut self,
        id: ActorId,
        handle: AbortHandle,
        cancel: CancellationToken,
    ) -> (r: bool)
        requires
            old(self).inv(),
        ensures
            final(self).inv(),
            final(self).scope_id() == old(self).scope_id(),
            final(self).next_actor() == old(self).next_actor(),
            r <==> id.0 == old(self).scope_id() && id.1 < old(self).next_actor() && !old(
                self,
            ).registered(id),
            r ==> final(self).ids() == old(self).ids().push(id),
            !r ==> final(self).ids() == old(self).ids(),
    {
        if id.0 == self.id && id.1 < self.next_actor_id && !self.is_running(id) {
            self.actors.push(ActorEntry { id, handle, cancel });
            proof {
                assert(final(self).ids() =~= old(self).ids().push(id));
            }
            true
        } else {
            false
        }
    }

    /// Whether an actor is registered: spawned here and not yet reaped.
    pub fn is_running(&self, id: ActorId) -> (r: bool)
        ensures
            r == self.registered(id),
    {
        let mut i: usize = 0;
        while i < self.actors.len()
            invariant
                i <= self.actors.len(),
                forall|k: int| 0 <= k < i ==> self.ids()[k] != id,
            decreases self.actors.len() - i,
        {
            if self.actors[i].id == id {
                proof {
                    assert(self.ids()[i as int] == id);
                }
                return true;
            }
            i = i + 1;
        }
        false
    }

    /// Forcibly aborts one actor's task without running its finalize
    /// operation — a hard kill for an unresponsive actor. The registry
    /// entry stays until the finished task is reaped.
    pub fn exit_actor(&mut self, id: ActorId)
        ensures
            *final(self) == *old(self),
    {
        let mut i: usize = 0;
        while i < self.actors.len()
            invariant
                self == old(self),
                i <= self.actors.len(),
            decreases self.actors.len() - i,
        {
            if self.actors[i].id == id {
                abort_task(&self.actors[i].handle);
                return ;
            }
            i = i + 1;
        }
    }

    /// The same hard kill as `exit_actor`.
    pub fn abort_actor(&mut self, id: ActorId)
        ensures
            *final(self) == *old(self),
    {
        self.exit_actor(id)
    }

    /// Removes a finished actor's bookkeeping. Succeeds exactly when the
    /// identity was registered; afterwards it is not, and nothing else
    /// changed.
    pub fn remove_actor(&mut self, id: ActorId) -> (r: bool)
        requires
            old(self).inv(),
        ensures
            final(self).inv(),
            final(self).scope_id() == old(self).scope_id(),
            final(self).next_actor() == old(self).next_actor(),
            r <==> old(self).registered(id),
            !final(self).registered(id),
            forall|x: ActorId| x != id ==> final(self).registered(x) == old(self).registered(x),
            r ==> final(self).ids().len() == old(self).ids().len() - 1,
            !r ==> final(self).ids() == old(self).ids(),
    {
        let mut i: usize = 0;
        while i < self.actors.len()
            invariant
                self == old(self),
                self.inv(),
                i <= self.actors.len(),
                forall|k: int| 0 <= k < i ==> self.ids()[k] != id,
            decreases self.actors.len() - i,
        {
            if self.actors[i].id == id {
                proof {
                    assert(self.ids()[i as int] == id);
                }
                self.actors.remove(i);
                proof {
                    let previous = old(self).ids();
                    assert(self.ids() =~= previous.remove(i as int));
                    lemma_unique_remove_frees(previous, i as int);
                    assert forall|x: ActorId| x != id implies self.registered(x) == old(
                        self,
                    ).registered(x) by {
                        lemma_remove_keeps_others(previous, i as int, x);
                    }
                    assert forall|k: int| 0 <= k < self.ids().len() implies self.ids()[k].0
                        == self.scope_id() && self.ids()[k].1 < self.next_actor() by {
                        if k < i {
                            assert(self.ids()[k] == previous[k]);
                        } else {
                            assert(self.ids()[k] == previous[k + 1]);
                        }
                    }
                    assert forall|p: int, q: int| 0 <= p < q < self.ids().len() implies self.ids()[p]
                        != self.ids()[q] by {
                        let pp: int = if p < i { p } else { p + 1 };
                        let qq: int = if q < i { q } else { q + 1 };
                        assert(self.ids()[p] == previous[pp]);
                        assert(self.ids()[q] == previous[qq]);
                        assert(previous[pp] != previous[qq]);
                    }
                }
                return true;
            }
            i = i + 1;
        }
        false
    }

    /// Requests cancellation of the scope's token; it propagates to all
    /// descendant scopes and actors. Does not wait for anything.
    pub fn exit_all(&mut self)
        ensures
            *final(self) == *old(self),
    {
        crate::token::cancel_token(&self.cancel);
    }

    /// Hard-kills every registered actor's task at once, bypassing
    /// finalization.
    pub fn abort_all(&mut self)
        ensures
            *final(self) == *old(self),
    {
        let mut i: usize = 0;
        while i < self.actors.len()
            invariant
                self == old(self),
                i <= self.actors.len(),
            decreases self.actors.len() - i,
        {
            abort_task(&self.actors[i].handle);
            i = i + 1;
        }
    }

    /// This scope's cancellation token, for the surrounding runtime to
    /// await cancellation on.
    pub fn cancel_token(&self) -> CancellationToken {
        clone_token(&self.cancel)
    }

    /// How many actors are currently registered.
    pub fn running_count(&self) -> (r: usize)
        ensures
            r == self.ids().len(),
    {
        self.actors.len()
    }
}

/// An identity at or above a scope's counter is registered nowhere in
/// it: identities are handed out monotonically and never reused while
/// the registry can still reach them.
pub proof fn lemma_fresh_identity_unregistered(s: &Scope, id: ActorId)
    requires
        s.inv(),
        id.1 >= s.next_actor(),
    ensures
        !s.registered(id),
{
    if s.registered(id) {
        let k = choose|k: int| 0 <= k < s.ids().len() && s.ids()[k] == id;
        assert(s.ids()[k].1 < s.next_actor());
    }
}

/// In a sequence of distinct identities, removing the occurrence of one
/// identity leaves a sequence that no longer contains it.
proof fn lemma_unique_remove_frees(ids: Seq<ActorId>, i: int)
    requires
        0 <= i < ids.len(),
        forall|p: int, q: int| 0 <= p < q < ids.len() ==> #[trigger] ids[p] != #[trigger] ids[q],
    ensures
        !ids.remove(i).contains(ids[i]),
{
    let removed = ids.remove(i);
    assert forall|k: int| 0 <= k < removed.len() implies removed[k] != ids[i] by {
        if k < i {
            assert(removed[k] == ids[k]);
        } else {
            assert(removed[k] == ids[k + 1]);
        }
    }
}

/// Removing one element keeps every other element's membership.
proof fn lemma_remove_keeps_others(ids: Seq<ActorId>, i: int, x: ActorId)
    requires
        0 <= i < ids.len(),
        x != ids[i],
    ensures
        ids.remove(i).contains(x) == ids.contains(x),
{
    let removed = ids.remove(i);
    if ids.contains(x) {
        let k = choose|k: int| 0 <= k < ids.len() && ids[k] == x;
        if k < i {
            assert(removed[k] == x);
        } else {
            assert(removed[k - 1] == x);
        }
        assert(removed.contains(x));
    }
    if removed.contains(x) {
        let k = choose|k: int| 0 <= k < removed.len() && removed[k] == x;
        if k < i {
            assert(ids[k] == x);
        } else {
            assert(ids[k + 1] == x);
        }
        assert(ids.contains(x));
    }
}

} // verus!
