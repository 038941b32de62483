use libecs::action::Action;
use libecs::state_store::{CollaboratorResponses, StateStore, StoreWake};
use libecs::termination::{create_termination, Interrupted};

fn responses() -> CollaboratorResponses {
    CollaboratorResponses {
        identity: Ok(Some("arn:aws:iam::123456789012:user/dev".to_string())),
        clusters: Ok(vec!["cluster/alpha".to_string(), "cluster/beta".to_string()]),
    }
}

#[test]
fn initial_snapshot_is_published_before_any_action() {
    let store = StateStore::new();
    let (state, snapshots) = store.finish();
    assert_eq!(snapshots.len(), 1);
    assert_eq!(snapshots[0], state);
    assert_eq!(state.caller_arn, None);
}

#[test]
fn successful_identity_fetch_records_the_arn() {
    let mut store = StateStore::new();
    store.reduce_context_info(Ok(Some("arn:aws:iam::123456789012:user/dev".to_string())));
    assert_eq!(
        store.state().caller_arn,
        Some("arn:aws:iam::123456789012:user/dev".to_string())
    );
    assert_eq!(store.state().context_error, None);
}

#[test]
fn failed_identity_fetch_records_the_error_and_continues() {
    let mut store = StateStore::new();
    store.reduce_context_info(Err("access denied".to_string()));
    // Hardened behavior: the error is carried in the snapshot, the identity
    // stays unset, and the loop goes on.
    assert_eq!(store.state().caller_arn, None);
    assert_eq!(store.state().context_error, Some("access denied".to_string()));
    let (_, snapshots) = store.finish();
    assert_eq!(snapshots.len(), 2);
}

#[test]
fn successful_cluster_fetch_replaces_the_list() {
    let mut store = StateStore::new();
    store.reduce_clusters(Ok(vec!["cluster/one".to_string()]));
    assert_eq!(store.state().cluster_arns, vec!["cluster/one".to_string()]);
    store.reduce_clusters(Ok(vec!["cluster/two".to_string(), "cluster/three".to_string()]));
    assert_eq!(
        store.state().cluster_arns,
        vec!["cluster/two".to_string(), "cluster/three".to_string()]
    );
}

#[test]
fn failed_cluster_fetch_records_the_error() {
    let mut store = StateStore::new();
    store.reduce_clusters(Ok(vec!["cluster/one".to_string()]));
    store.reduce_clusters(Err("timeout".to_string()));
    assert_eq!(store.state().cluster_arns, vec!["cluster/one".to_string()]);
    assert_eq!(store.state().clusters_error, Some("timeout".to_string()));
}

#[test]
fn passive_actions_still_republish() {
    let mut store = StateStore::new();
    store.reduce_passive(Action::Noop);
    store.reduce_passive(Action::Render);
    store.reduce_passive(Action::Tick);
    let (state, snapshots) = store.finish();
    // One snapshot per action, plus the initial publish.
    assert_eq!(snapshots.len(), 4);
    for snapshot in &snapshots {
        assert_eq!(*snapshot, state);
    }
}

#[test]
fn one_snapshot_per_action_through_the_event_loop() {
    let mut store = StateStore::new();
    let mut terminator = create_termination();
    let wakes = vec![
        StoreWake::Action(Action::Noop),
        StoreWake::Action(Action::GetContextInfo),
        StoreWake::Action(Action::Render),
        StoreWake::Action(Action::GetClusters),
        StoreWake::Action(Action::Tick),
    ];
    let exit = store.event_loop(&mut terminator, &wakes, &responses());
    assert_eq!(exit, None);
    let (_, snapshots) = store.finish();
    assert_eq!(snapshots.len(), 1 + wakes.len());
}

#[test]
fn quit_action_terminates_without_a_snapshot() {
    let mut store = StateStore::new();
    let mut terminator = create_termination();
    let wakes = vec![
        StoreWake::Action(Action::Noop),
        StoreWake::Action(Action::Quit),
        StoreWake::Action(Action::Render),
    ];
    let exit = store.event_loop(&mut terminator, &wakes, &responses());
    assert_eq!(exit, Some(Interrupted::UserInt));
    assert_eq!(terminator.reason(), Some(Interrupted::UserInt));
    let (_, snapshots) = store.finish();
    // The initial publish plus the one handled action before the quit; the
    // action after the quit is never processed.
    assert_eq!(snapshots.len(), 2);
}

#[test]
fn interrupt_ends_the_loop_without_authoring_a_reason() {
    let mut store = StateStore::new();
    let mut terminator = create_termination();
    let wakes = vec![
        StoreWake::Action(Action::Noop),
        StoreWake::Interrupt(Interrupted::OsSigInt),
        StoreWake::Action(Action::Noop),
    ];
    let exit = store.event_loop(&mut terminator, &wakes, &responses());
    assert_eq!(exit, Some(Interrupted::OsSigInt));
    // The store only authors user-requested terminations.
    assert_eq!(terminator.reason(), None);
    let (_, snapshots) = store.finish();
    assert_eq!(snapshots.len(), 2);
}

#[test]
fn process_dispatches_fetches_through_the_collaborators() {
    let mut store = StateStore::new();
    let mut terminator = create_termination();
    let exit = store.process(Action::GetClusters, &responses(), &mut terminator);
    assert_eq!(exit, None);
    assert_eq!(store.state().cluster_arns.len(), 2);
    let exit = store.process(Action::Quit, &responses(), &mut terminator);
    assert_eq!(exit, Some(Interrupted::UserInt));
    assert_eq!(terminator.reason(), Some(Interrupted::UserInt));
}
