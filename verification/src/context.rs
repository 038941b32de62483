//! The context panel component: shows the caller identity ARN from the
//! latest state snapshot.

use vstd::prelude::*;

use crate::action::Action;
use crate::events::Event;
use crate::state::{clone_opt_string, State, StateModel};

verus! {

/// The context panel's projection of the global state: only the caller ARN.
pub open spec fn context_props_of(s: StateModel) -> Option<Seq<char>> {
    s.caller_arn
}

/// The context panel's read-only view state, recomputed wholesale from each
/// state snapshot.
#[derive(Debug, PartialEq)]
pub struct Props {
    pub arn: Option<String>,
}

impl Props {
    /// Projects a state snapshot into the panel's props. The projection is a
    /// pure function of the snapshot — it reads through a shared reference
    /// and cannot mutate the state — so equal snapshots always yield the
    /// same props.
    pub fn from(state: &State) -> (props: Props)
        ensures
            props.arn.deep_view() == context_props_of(state@),
    {
        Props { arn: clone_opt_string(&state.caller_arn) }
    }
}

/// Projecting equal state snapshots yields equal props: the projection
/// depends on nothing but the snapshot's value, so repeating it — or running
/// it in another component instance — can never disagree.
pub proof fn lemma_context_projection_pure(s1: StateModel, s2: StateModel)
    requires
        s1 == s2,
    ensures
        context_props_of(s1) == context_props_of(s2),
{
}

/// The context panel. It issues the identity fetch when initialized and
/// otherwise only mirrors the latest snapshot.
pub struct Context {
    action_registered: bool,
    props: Props,
}

impl Context {
    /// Whether an action handler has been registered with this component.
    pub closed spec fn registered(&self) -> bool {
        self.action_registered
    }

    /// The panel's current projection of the state.
    pub closed spec fn props_of(&self) -> Option<Seq<char>> {
        self.props.arn.deep_view()
    }
}

impl Default for Context {
    /// A fresh panel: no action handler registered, nothing projected yet.
    fn default() -> (c: Context)
        ensures
            !c.registered(),
            c.props_of() is None,
    {
        Context { action_registered: false, props: Props { arn: None } }
    }
}

impl Context {
    /// Records that the runtime's action channel is connected, so `init` may
    /// enqueue its fetch.
    pub fn register_action_handler(&mut self)
        ensures
            final(self).registered(),
            final(self).props_of() == old(self).props_of(),
    {
        self.action_registered = true;
    }

    /// One-time setup: once registered, asks for the context information to
    /// be fetched.
    pub fn init(&self) -> (action: Option<Action>)
        ensures
            action == (if self.registered() {
                Some(Action::GetContextInfo)
            } else {
                None::<Action>
            }),
    {
        if self.action_registered {
            Some(Action::GetContextInfo)
        } else {
            None
        }
    }

    /// Replaces the panel's props with the projection of the new snapshot.
    pub fn set_state(&mut self, state: &State)
        ensures
            final(self).props_of() == context_props_of(state@),
            final(self).registered() == old(self).registered(),
    {
        self.props = Props::from(state);
    }

    /// Forwarded events: the panel binds no keys, so every event yields
    /// `Noop` and changes nothing.
    pub fn handle_events(&self, event: &Event) -> (action: Action)
        ensures
            action is Noop,
    {
        let _ = event;
        Action::Noop
    }

    /// Forwarded actions pass through unchanged.
    pub fn update(&self, action: Action) -> (echoed: Action)
        ensures
            echoed == action,
    {
        action
    }

    /// The ARN to render, as projected from the latest snapshot.
    pub fn arn(&self) -> (arn: &Option<String>)
        ensures
            arn.deep_view() == self.props_of(),
    {
        &self.props.arn
    }
}

} // verus!
