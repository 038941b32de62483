use libecs::action::Action;
use libecs::context::{Context, Props};
use libecs::events::Event;
use libecs::state::State;

fn state_with_arn(arn: &str) -> State {
    State {
        caller_arn: Some(arn.to_string()),
        cluster_arns: Vec::new(),
        context_error: None,
        clusters_error: None,
    }
}

#[test]
fn props_project_the_caller_arn() {
    let props = Props::from(&state_with_arn("arn:aws:iam::123456789012:user/dev"));
    assert_eq!(props.arn, Some("arn:aws:iam::123456789012:user/dev".to_string()));
    let empty = Props::from(&State::default());
    assert_eq!(empty.arn, None);
}

#[test]
fn projection_is_pure_for_context_props() {
    let state = state_with_arn("arn:aws:iam::123456789012:user/dev");
    let once = Props::from(&state);
    let twice = Props::from(&state);
    // Same state in, byte-identical props out, and the state is unchanged.
    assert_eq!(once, twice);
    assert_eq!(state.caller_arn, Some("arn:aws:iam::123456789012:user/dev".to_string()));
}

#[test]
fn init_asks_for_context_info_once_registered() {
    let mut panel = Context::default();
    assert_eq!(panel.init(), None);
    panel.register_action_handler();
    assert_eq!(panel.init(), Some(Action::GetContextInfo));
}

#[test]
fn set_state_updates_the_shown_arn() {
    let mut panel = Context::default();
    assert_eq!(panel.arn(), &None);
    panel.set_state(&state_with_arn("arn:aws:iam::123456789012:user/dev"));
    assert_eq!(panel.arn(), &Some("arn:aws:iam::123456789012:user/dev".to_string()));
}

#[test]
fn events_never_produce_actions() {
    let panel = Context::default();
    assert_eq!(panel.handle_events(&Event::Tick), Action::Noop);
    assert_eq!(panel.handle_events(&Event::FocusLost), Action::Noop);
    assert_eq!(panel.update(Action::Render), Action::Render);
}
