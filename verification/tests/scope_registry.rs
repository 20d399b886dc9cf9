use xacto::ActorId;
use xacto::ActorOutput;
use xacto::ActorTaskError;
use xacto::ActorError;
use xacto::Scope;
use xacto::ScopeContext;

#[test]
fn actor_identities_are_allocated_monotonically_per_scope() {
    let mut ctx = ScopeContext::new();
    let mut scope = Scope::new(&mut ctx);
    let first = scope.prepare_spawn::<u32>(4).unwrap();
    let second = scope.prepare_spawn::<u32>(4).unwrap();
    assert_eq!(first.id, ActorId(0, 0));
    assert_eq!(second.id, ActorId(0, 1));
    assert_eq!(first.act.id(), first.id);

    let mut child = scope.child_scope(&mut ctx);
    let in_child = child.prepare_spawn::<u32>(4).unwrap();
    assert_eq!(in_child.id, ActorId(1, 0));

    let mut sibling = Scope::new(&mut ctx);
    let in_sibling = sibling.prepare_spawn::<u32>(4).unwrap();
    assert_eq!(in_sibling.id, ActorId(2, 0));
}

#[test]
fn a_cancelled_scope_spawns_nothing() {
    let mut ctx = ScopeContext::new();
    let mut scope = Scope::new(&mut ctx);
    scope.exit_all();
    assert!(scope.prepare_spawn::<u32>(4).is_none());
}

#[test]
fn parent_cancellation_reaches_child_scopes() {
    let mut ctx = ScopeContext::new();
    let mut parent = Scope::new(&mut ctx);
    let mut child = parent.child_scope(&mut ctx);
    let mut unrelated = Scope::new(&mut ctx);

    parent.exit_all();
    assert!(child.prepare_spawn::<u32>(4).is_none());
    // Never sideways: an unrelated scope still spawns.
    assert!(unrelated.prepare_spawn::<u32>(4).is_some());
}

#[test]
fn registry_tracks_spawned_actors_until_reaped() {
    let rt = tokio::runtime::Builder::new_current_thread().build().unwrap();
    let mut join_set: tokio::task::JoinSet<()> = tokio::task::JoinSet::new();
    let handle = rt.block_on(async { join_set.spawn(async {}) });

    let mut ctx = ScopeContext::new();
    let mut scope = Scope::new(&mut ctx);
    let slot = scope.prepare_spawn::<u32>(4).unwrap();
    let id = slot.id;

    assert!(!scope.is_running(id));
    assert!(scope.record_spawn(id, handle.clone(), slot.cancel.clone()));
    assert!(scope.is_running(id));
    assert_eq!(scope.running_count(), 1);

    // The same identity cannot be registered twice.
    assert!(!scope.record_spawn(id, handle.clone(), slot.cancel.clone()));
    // Nor an identity this scope never allocated.
    assert!(!scope.record_spawn(ActorId(0, 77), handle.clone(), slot.cancel.clone()));
    assert!(!scope.record_spawn(ActorId(9, 0), handle, slot.cancel));

    assert!(scope.remove_actor(id));
    assert!(!scope.is_running(id));
    assert!(!scope.remove_actor(id));
    assert_eq!(scope.running_count(), 0);
}

#[test]
fn task_results_categorize_exactly() {
    assert!(matches!(xacto::output_of_task_result(Ok(())), ActorOutput::Success));
    let failed = xacto::output_of_task_result(Err(ActorTaskError::Exit(ActorError::Recv(
        xacto::RecvError::Closed,
    ))));
    assert!(matches!(failed, ActorOutput::Failed(ActorTaskError::Exit(_))));
}

#[test]
fn join_failures_categorize_as_abort_or_panic() {
    let rt = tokio::runtime::Builder::new_current_thread().enable_all().build().unwrap();
    let mut join_set: tokio::task::JoinSet<()> = tokio::task::JoinSet::new();

    let panicked = rt.block_on(async {
        join_set.spawn(async { panic!("induced unwind") });
        join_set.join_next().await.unwrap().unwrap_err()
    });
    assert!(matches!(xacto::output_of_join_failure(panicked), ActorOutput::Panicked));

    let aborted = rt.block_on(async {
        let handle = join_set.spawn(async {
            std::future::pending::<()>().await;
        });
        handle.abort();
        join_set.join_next().await.unwrap().unwrap_err()
    });
    assert!(matches!(xacto::output_of_join_failure(aborted), ActorOutput::Aborted));
}
