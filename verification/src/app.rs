//! The application runtime: it drives the draw/update loop, turns select
//! events into actions, forwards every event to every mounted component, and
//! forwards every state snapshot to every component's state hook.
//!
//! The live loop selects over the event channel, the state channel and the
//! termination broadcast; those suspension points live outside the library.
//! Here the loop's decisions are verified, and [`run_session`] runs a whole
//! session over recorded inputs exactly as the live loop would.

use vstd::prelude::*;

use crate::action::Action;
use crate::clusters::{clamped_selection, clusters_props_of, key_selection, Clusters};
use crate::context::{context_props_of, Context};
use crate::events::{Event, KeyCode, KeyEvent};
use crate::input::{
    input_source_output, input_source_run, lemma_normalized_stream_len, TerminalInput,
};
use crate::state::{empty_state_model, State, StateModel};
use crate::state_store::{
    clusters_reduced, context_reduced, CollaboratorModel, CollaboratorResponses, StateStore,
};
use crate::termination::{create_termination, Interrupted};

verus! {

/// The single global key binding: a `q` press requests the session's end,
/// whichever component has focus.
pub open spec fn quit_key(key: KeyEvent) -> bool {
    key.kind is Press && key.code == KeyCode::Char('q')
}

/// The actions the runtime itself enqueues for an event: a quit event or the
/// quit key enqueues the quit action; every other event enqueues nothing
/// (components may still move their own view state).
pub open spec fn runtime_actions(event: Event) -> Seq<Action> {
    match event {
        Event::Quit => seq![Action::Quit],
        Event::Key(key) => if quit_key(key) {
            seq![Action::Quit]
        } else {
            Seq::empty()
        },
        _ => Seq::empty(),
    }
}

/// Whether an event makes the runtime request the session's end: a quit
/// event, or a press of the quit key.
pub open spec fn quitting_event(event: Event) -> bool {
    match event {
        Event::Quit => true,
        Event::Key(key) => quit_key(key),
        _ => false,
    }
}

/// Whether any event of the session requests the end.
pub open spec fn session_quits(events: Seq<Event>) -> bool {
    exists|i: int| 0 <= i < events.len() && quitting_event(events[i])
}

/// How many events the runtime handles (each followed by one redraw): every
/// event up to and including the first quitting one.
pub open spec fn events_seen(events: Seq<Event>) -> int
    decreases events.len(),
{
    if events.len() == 0 {
        0
    } else if quitting_event(events[0]) {
        1
    } else {
        1 + events_seen(events.drop_first())
    }
}

/// The runtime owning the mounted components. Channels and the spawned input
/// task live outside the library; the runtime's decisions are all here.
pub struct App {
    pub context_component: Context,
    pub cluster_component: Clusters,
}

impl App {
    /// The components' view state is well formed (the table cursor stays in
    /// range).
    pub open spec fn wf(&self) -> bool {
        self.cluster_component.wf()
    }

    /// A fresh runtime with both components mounted and nothing projected.
    pub fn new() -> (app: App)
        ensures
            app.wf(),
            !app.context_component.registered(),
            app.context_component.props_of() is None,
            !app.cluster_component.registered(),
            app.cluster_component.rows_of() =~= Seq::<crate::state::ClusterItemModel>::empty(),
            app.cluster_component.selection_of() is None,
    {
        App { context_component: Context::default(), cluster_component: Clusters::new() }
    }

    /// Registers the action channel with every component, then runs each
    /// component's one-time init: the context panel asks for the identity,
    /// the cluster table asks for the cluster list, in mounting order.
    pub fn init(&mut self) -> (actions: Vec<Action>)
        requires
            old(self).wf(),
        ensures
            final(self).wf(),
            actions@ == seq![Action::GetContextInfo, Action::GetClusters],
            final(self).context_component.registered(),
            final(self).cluster_component.registered(),
            final(self).context_component.props_of() == old(self).context_component.props_of(),
            final(self).cluster_component.rows_of() == old(self).cluster_component.rows_of(),
            final(self).cluster_component.selection_of() == old(
                self,
            ).cluster_component.selection_of(),
    {
        self.context_component.register_action_handler();
        self.cluster_component.register_action_handler();
        let mut actions: Vec<Action> = Vec::new();
        match self.context_component.init() {
            Some(action) => actions.push(action),
            None => (),
        }
        match self.cluster_component.init() {
            Some(action) => actions.push(action),
            None => (),
        }
        proof {
            assert(actions@ =~= seq![Action::GetContextInfo, Action::GetClusters]);
        }
        actions
    }

    /// Resolves the runtime's own key bindings: only the quit key maps to an
    /// action.
    pub fn handle_key_event(key: KeyEvent) -> (action: Option<Action>)
        ensures
            action == (if quit_key(key) {
                Some(Action::Quit)
            } else {
                None::<Action>
            }),
    {
        match key.kind {
            crate::events::KeyEventKind::Press => match key.code {
                KeyCode::Char(ch) => if ch == 'q' {
                    Some(Action::Quit)
                } else {
                    None
                },
                KeyCode::Other => None,
            },
            _ => None,
        }
    }

    /// Handles one event from the input source: resolves the runtime's key
    /// bindings into actions, and forwards the event unchanged to every
    /// mounted component (whose answers are view-state moves, never store
    /// work).
    pub fn handle_event(&mut self, event: &Event) -> (actions: Vec<Action>)
        requires
            old(self).wf(),
        ensures
            final(self).wf(),
            actions@ == runtime_actions(*event),
            final(self).context_component.props_of() == old(self).context_component.props_of(),
            final(self).context_component.registered() == old(
                self,
            ).context_component.registered(),
            final(self).cluster_component.rows_of() == old(self).cluster_component.rows_of(),
            final(self).cluster_component.registered() == old(
                self,
            ).cluster_component.registered(),
            final(self).cluster_component.selection_of() == (match *event {
                Event::Key(key) => key_selection(
                    old(self).cluster_component.selection_of(),
                    old(self).cluster_component.row_count(),
                    key,
                ),
                _ => old(self).cluster_component.selection_of(),
            }),
    {
        let mut actions: Vec<Action> = Vec::new();
        match event {
            Event::Quit => actions.push(Action::Quit),
            Event::Key(key) => match Self::handle_key_event(*key) {
                Some(action) => actions.push(action),
                None => (),
            },
            _ => (),
        }
        let _ = self.context_component.handle_events(event);
        let _ = self.cluster_component.handle_events(event);
        proof {
            assert(actions@ =~= runtime_actions(*event));
        }
        actions
    }

    /// Forwards a state snapshot unchanged to every component's state hook;
    /// no action results.
    pub fn handle_state(&mut self, state: &State)
        ensures
            final(self).wf(),
            final(self).context_component.props_of() == context_props_of(state@),
            final(self).context_component.registered() == old(
                self,
            ).context_component.registered(),
            final(self).cluster_component.rows_of() == clusters_props_of(state@),
            final(self).cluster_component.selection_of() == clamped_selection(
                old(self).cluster_component.selection_of(),
                clusters_props_of(state@).len() as int,
            ),
            final(self).cluster_component.registered() == old(
                self,
            ).cluster_component.registered(),
    {
        self.context_component.set_state(state);
        self.cluster_component.set_state(state);
    }
}

/// The snapshots a session publishes, in order: the initial empty state,
/// then the state after the identity fetch, then the state after the
/// cluster fetch. Nothing later mutates the store, so these are all.
pub open spec fn session_states(c: CollaboratorModel) -> Seq<StateModel> {
    let s0 = empty_state_model();
    let s1 = context_reduced(s0, c.identity);
    let s2 = clusters_reduced(s1, c.clusters);
    seq![s0, s1, s2]
}

/// The state a session ends with.
pub open spec fn session_final_state(c: CollaboratorModel) -> StateModel {
    clusters_reduced(context_reduced(empty_state_model(), c.identity), c.clusters)
}

/// Everything a finished session hands back.
pub struct SessionOutcome {
    /// Why the session ended: the user-requested reason when some event quit
    /// it, nothing when the recorded events ran out with the session live.
    pub reason: Option<Interrupted>,
    /// The state the store ended with.
    pub final_state: State,
    /// Every snapshot the store published, oldest first.
    pub snapshots: Vec<State>,
    /// How many actions the store reduced (each publishing one snapshot).
    pub actions_handled: usize,
    /// How many frames the runtime drew: one per delivered snapshot and one
    /// per handled event.
    pub frames_drawn: usize,
}

/// When the first quitting event stands at `i`, the runtime sees exactly the
/// events up to and including it.
proof fn lemma_events_seen_at(events: Seq<Event>, i: int)
    requires
        0 <= i < events.len(),
        quitting_event(events[i]),
        forall|j: int| 0 <= j < i ==> !quitting_event(events[j]),
    ensures
        events_seen(events) == i + 1,
    decreases i,
{
    if i == 0 {
    } else {
        lemma_events_seen_at(events.drop_first(), i - 1);
    }
}

/// Without a quitting event the runtime sees every event.
proof fn lemma_events_seen_all(events: Seq<Event>)
    requires
        forall|j: int| 0 <= j < events.len() ==> !quitting_event(events[j]),
    ensures
        events_seen(events) == events.len(),
    decreases events.len(),
{
    if events.len() > 0 {
        lemma_events_seen_all(events.drop_first());
    }
}

/// Runs one whole session over a recorded event stream, wiring the input
/// source's events through the runtime to the state store exactly as the
/// live loops do: the store publishes its initial snapshot, the components
/// are registered and initialized (fetching identity and clusters through
/// the collaborators), and then each event is handled in turn — with one
/// redraw per wake-up — until an event requests the end or the events run
/// out. The publication log always holds exactly one snapshot more than the
/// number of actions the store reduced.
pub fn run_session(events: &Vec<Event>, collaborators: &CollaboratorResponses) -> (out:
    SessionOutcome)
    requires
        events@.len() + 4 <= usize::MAX,
    ensures
        out.reason == (if session_quits(events@) {
            Some(Interrupted::UserInt)
        } else {
            None::<Interrupted>
        }),
        out.final_state@ == session_final_state(collaborators@),
        out.snapshots.deep_view() == session_states(collaborators@),
        out.actions_handled == 2,
        out.snapshots@.len() == 1 + out.actions_handled,
        out.frames_drawn == out.snapshots@.len() + events_seen(events@),
{
    let ghost c = collaborators@;
    let mut terminator = create_termination();
    let mut store = StateStore::new();
    let mut app = App::new();
    let mut frames: usize = 0;

    // The initial snapshot reaches the components before any fetch.
    app.handle_state(store.state());
    frames += 1;

    // Registration and one-time component setup enqueue the two fetches.
    let init_actions = app.init();
    let first = init_actions[0];
    let stop = store.process(first, collaborators, &mut terminator);
    proof {
        assert(stop is None);
    }
    app.handle_state(store.state());
    frames += 1;
    let second = init_actions[1];
    let stop = store.process(second, collaborators, &mut terminator);
    proof {
        assert(stop is None);
    }
    app.handle_state(store.state());
    frames += 1;
    proof {
        assert(store.published_log() =~= session_states(c));
        assert(store.current() == session_final_state(c));
    }

    // The main loop: handle each event, then redraw, until one quits.
    let mut i: usize = 0;
    while i < events.len()
        invariant
            i <= events.len(),
            events@.len() + 4 <= usize::MAX,
            app.wf(),
            c == collaborators@,
            forall|j: int| 0 <= j < i ==> !quitting_event(events@[j]),
            frames == 3 + i,
            store.published_log() =~= session_states(c),
            store.current() == session_final_state(c),
            terminator.reason_of() is None,
        decreases events.len() - i,
    {
        let event = &events[i];
        let actions = app.handle_event(event);
        frames += 1;
        if actions.len() > 0 {
            proof {
                assert(actions@ =~= seq![Action::Quit]);
                assert(quitting_event(events@[i as int]));
                assert(session_quits(events@));
                lemma_events_seen_at(events@, i as int);
            }
            let exit = store.process(actions[0], collaborators, &mut terminator);
            let final_state = store.state().snapshot();
            let (_, snapshots) = store.finish();
            proof {
                assert(snapshots@.len() == snapshots.deep_view().len());
            }
            return SessionOutcome {
                reason: exit,
                final_state,
                snapshots,
                actions_handled: 2,
                frames_drawn: frames,
            };
        }
        i += 1;
    }
    proof {
        assert(!session_quits(events@));
        lemma_events_seen_all(events@);
    }

    let final_state = store.state().snapshot();
    let (_, snapshots) = store.finish();
    proof {
        assert(snapshots@.len() == snapshots.deep_view().len());
    }
    SessionOutcome {
        reason: None,
        final_state,
        snapshots,
        actions_handled: 2,
        frames_drawn: frames,
    }
}

/// Runs the whole pipeline over recorded raw terminal reads: the input
/// source normalizes the reads into events (emitting the init event first,
/// and never a key repeat or release), and the session runs over that
/// stream.
pub fn run_app(reads: &Vec<TerminalInput>, collaborators: &CollaboratorResponses) -> (out:
    SessionOutcome)
    requires
        reads@.len() + 5 <= usize::MAX,
    ensures
        out.reason == (if session_quits(input_source_output(reads@)) {
            Some(Interrupted::UserInt)
        } else {
            None::<Interrupted>
        }),
        out.final_state@ == session_final_state(collaborators@),
        out.snapshots.deep_view() == session_states(collaborators@),
        out.snapshots@.len() == 1 + out.actions_handled,
        out.frames_drawn == out.snapshots@.len() + events_seen(input_source_output(reads@)),
{
    let events = input_source_run(reads);
    proof {
        lemma_normalized_stream_len(reads@);
    }
    run_session(&events, collaborators)
}

} // verus!
