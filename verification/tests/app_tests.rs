use libecs::action::Action;
use libecs::app::{run_app, run_session, App};
use libecs::input::TerminalInput;
use libecs::events::{Event, KeyCode, KeyEvent, KeyEventKind};
use libecs::state::State;
use libecs::state_store::CollaboratorResponses;
use libecs::termination::Interrupted;

fn press(code: char) -> KeyEvent {
    KeyEvent { code: KeyCode::Char(code), kind: KeyEventKind::Press }
}

fn responses() -> CollaboratorResponses {
    CollaboratorResponses {
        identity: Ok(Some("arn:aws:iam::123456789012:user/dev".to_string())),
        clusters: Ok(vec!["cluster/alpha".to_string(), "cluster/beta".to_string()]),
    }
}

#[test]
fn init_registers_and_enqueues_both_fetches() {
    let mut app = App::new();
    let actions = app.init();
    assert_eq!(actions, vec![Action::GetContextInfo, Action::GetClusters]);
}

#[test]
fn quit_key_resolves_to_the_quit_action() {
    assert_eq!(App::handle_key_event(press('q')), Some(Action::Quit));
    assert_eq!(App::handle_key_event(press('x')), None);
    let release = KeyEvent { code: KeyCode::Char('q'), kind: KeyEventKind::Release };
    assert_eq!(App::handle_key_event(release), None);
}

#[test]
fn quit_event_and_quit_key_enqueue_the_quit_action() {
    let mut app = App::new();
    assert_eq!(app.handle_event(&Event::Quit), vec![Action::Quit]);
    assert_eq!(app.handle_event(&Event::Key(press('q'))), vec![Action::Quit]);
    assert_eq!(app.handle_event(&Event::Init), Vec::<Action>::new());
    assert_eq!(app.handle_event(&Event::Tick), Vec::<Action>::new());
}

#[test]
fn events_are_forwarded_to_the_cluster_table() {
    let mut app = App::new();
    let state = State {
        caller_arn: None,
        cluster_arns: vec!["c/a".to_string(), "c/b".to_string()],
        context_error: None,
        clusters_error: None,
    };
    app.handle_state(&state);
    app.handle_event(&Event::Key(press('j')));
    assert_eq!(app.cluster_component.selection(), Some(0));
    app.handle_event(&Event::Key(press('j')));
    assert_eq!(app.cluster_component.selection(), Some(1));
    app.handle_event(&Event::Key(press('k')));
    assert_eq!(app.cluster_component.selection(), Some(0));
}

#[test]
fn state_snapshots_reach_every_component() {
    let mut app = App::new();
    let state = State {
        caller_arn: Some("arn:aws:iam::123456789012:user/dev".to_string()),
        cluster_arns: vec!["cluster/alpha".to_string()],
        context_error: None,
        clusters_error: None,
    };
    app.handle_state(&state);
    assert_eq!(
        app.context_component.arn(),
        &Some("arn:aws:iam::123456789012:user/dev".to_string())
    );
    assert_eq!(app.cluster_component.items().len(), 1);
    assert_eq!(app.cluster_component.items()[0].name, "alpha");
}

#[test]
fn session_quits_on_the_quit_key_with_two_clusters() {
    let events = vec![Event::Init, Event::Key(press('q'))];
    let outcome = run_session(&events, &responses());
    assert_eq!(outcome.reason, Some(Interrupted::UserInt));
    assert_eq!(outcome.final_state.cluster_arns.len(), 2);
    assert_eq!(
        outcome.final_state.caller_arn,
        Some("arn:aws:iam::123456789012:user/dev".to_string())
    );
    // One snapshot per reduced action, plus the initial publish.
    assert_eq!(outcome.actions_handled, 2);
    assert_eq!(outcome.snapshots.len(), 3);
    // One redraw per wake-up: three snapshots and two events.
    assert_eq!(outcome.frames_drawn, 5);
}

#[test]
fn session_without_quit_runs_out_of_events() {
    let events = vec![Event::Init, Event::Key(press('j')), Event::Tick];
    let outcome = run_session(&events, &responses());
    assert_eq!(outcome.reason, None);
    assert_eq!(outcome.snapshots.len(), 3);
    assert_eq!(outcome.frames_drawn, 6);
}

#[test]
fn session_stops_at_the_first_quitting_event() {
    let events = vec![
        Event::Key(press('j')),
        Event::Quit,
        Event::Key(press('j')),
        Event::Tick,
    ];
    let outcome = run_session(&events, &responses());
    assert_eq!(outcome.reason, Some(Interrupted::UserInt));
    // Two events seen (the second quits), three snapshots delivered.
    assert_eq!(outcome.frames_drawn, 5);
}

#[test]
fn pipeline_quits_on_a_raw_quit_key_press() {
    let reads = vec![TerminalInput::Key(press('q'))];
    let outcome = run_app(&reads, &responses());
    assert_eq!(outcome.reason, Some(Interrupted::UserInt));
    assert_eq!(outcome.final_state.cluster_arns.len(), 2);
}

#[test]
fn pipeline_ignores_a_filtered_quit_key_repeat() {
    let repeat = KeyEvent { code: KeyCode::Char('q'), kind: KeyEventKind::Repeat };
    let reads = vec![TerminalInput::Key(repeat)];
    let outcome = run_app(&reads, &responses());
    // The repeat never reaches the runtime, so nothing quits the session.
    assert_eq!(outcome.reason, None);
    // Only the init event is seen: three snapshots, one event, four frames.
    assert_eq!(outcome.frames_drawn, 4);
}

#[test]
fn session_surfaces_a_failed_identity_fetch() {
    let responses = CollaboratorResponses {
        identity: Err("access denied".to_string()),
        clusters: Ok(vec!["cluster/alpha".to_string()]),
    };
    let outcome = run_session(&vec![Event::Init], &responses);
    assert_eq!(outcome.reason, None);
    assert_eq!(outcome.final_state.caller_arn, None);
    assert_eq!(outcome.final_state.context_error, Some("access denied".to_string()));
    assert_eq!(outcome.snapshots.len(), 3);
}
