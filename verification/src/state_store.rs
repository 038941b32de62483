//! The state store: the sole owner and writer of [`State`], reducing actions
//! into state transitions and republishing the full snapshot after every
//! reduction step.
//!
//! The asynchronous collaborator calls (identity lookup, cluster listing) are
//! performed outside the library; their outcomes are handed in as plain
//! `Result` values and reduced here. A failed fetch is recorded in the
//! snapshot's error fields and the loop continues — a single failed
//! background fetch never ends the session.

use vstd::prelude::*;

use crate::action::Action;
use crate::state::{
    clone_opt_string, clone_string_vec, empty_state_model, State, StateModel,
};
use crate::termination::{terminate_transition, Interrupted, Terminator};

verus! {

/// The responses the external collaborators give during a session, as plain
/// values: one fixed response per fetch kind, handed back for every fetch of
/// that kind.
#[derive(Debug)]
pub struct CollaboratorResponses {
    /// What the identity lookup returns: the caller ARN (absent when the
    /// identity carries none), or the failure message.
    pub identity: Result<Option<String>, String>,
    /// What the cluster listing returns: the cluster ARNs, or the failure
    /// message.
    pub clusters: Result<Vec<String>, String>,
}

/// The mathematical value of a [`CollaboratorResponses`].
#[verifier::ext_equal]
pub struct CollaboratorModel {
    pub identity: Result<Option<Seq<char>>, Seq<char>>,
    pub clusters: Result<Seq<Seq<char>>, Seq<char>>,
}

/// The model of an identity-lookup outcome.
pub open spec fn identity_outcome_model(
    r: Result<Option<String>, String>,
) -> Result<Option<Seq<char>>, Seq<char>> {
    match r {
        Ok(arn) => Ok(arn.deep_view()),
        Err(message) => Err(message@),
    }
}

/// The model of a cluster-listing outcome.
pub open spec fn clusters_outcome_model(
    r: Result<Vec<String>, String>,
) -> Result<Seq<Seq<char>>, Seq<char>> {
    match r {
        Ok(arns) => Ok(arns.deep_view()),
        Err(message) => Err(message@),
    }
}

impl View for CollaboratorResponses {
    type V = CollaboratorModel;

    open spec fn view(&self) -> CollaboratorModel {
        CollaboratorModel {
            identity: identity_outcome_model(self.identity),
            clusters: clusters_outcome_model(self.clusters),
        }
    }
}

impl CollaboratorResponses {
    /// Performs one identity lookup: hands back the scripted response.
    pub fn fetch_identity(&self) -> (r: Result<Option<String>, String>)
        ensures
            identity_outcome_model(r) == self@.identity,
    {
        match &self.identity {
            Ok(arn) => Ok(clone_opt_string(arn)),
            Err(message) => Err(message.clone()),
        }
    }

    /// Performs one cluster listing: hands back the scripted response.
    pub fn fetch_clusters(&self) -> (r: Result<Vec<String>, String>)
        ensures
            clusters_outcome_model(r) == self@.clusters,
    {
        match &self.clusters {
            Ok(arns) => Ok(clone_string_vec(arns)),
            Err(message) => Err(message.clone()),
        }
    }
}

/// How an identity-lookup outcome reduces the state: success records the
/// caller ARN (and clears the last identity error), failure records the error
/// and leaves the identity untouched.
pub open spec fn context_reduced(
    s: StateModel,
    fetched: Result<Option<Seq<char>>, Seq<char>>,
) -> StateModel {
    match fetched {
        Ok(arn) => StateModel { caller_arn: arn, context_error: None, ..s },
        Err(message) => StateModel { context_error: Some(message), ..s },
    }
}

/// How a cluster-listing outcome reduces the state: success replaces the
/// cluster ARNs wholesale (and clears the last listing error), failure
/// records the error and leaves the list untouched.
pub open spec fn clusters_reduced(
    s: StateModel,
    fetched: Result<Seq<Seq<char>>, Seq<char>>,
) -> StateModel {
    match fetched {
        Ok(arns) => StateModel { cluster_arns: arns, clusters_error: None, ..s },
        Err(message) => StateModel { clusters_error: Some(message), ..s },
    }
}

/// How one non-quit action reduces the state, given the collaborators'
/// responses. `Noop`, `Tick` and `Render` change nothing (the snapshot is
/// still republished); `Quit` never reaches a reduction.
pub open spec fn action_reduced(s: StateModel, action: Action, c: CollaboratorModel) -> StateModel {
    match action {
        Action::GetContextInfo => context_reduced(s, c.identity),
        Action::GetClusters => clusters_reduced(s, c.clusters),
        _ => s,
    }
}

/// The state store. It owns the single mutable [`State`] and the sequence of
/// snapshots published so far (the model of the state channel, oldest
/// first).
pub struct StateStore {
    state: State,
    published: Vec<State>,
}

impl StateStore {
    /// The current state.
    pub closed spec fn current(&self) -> StateModel {
        self.state@
    }

    /// Every snapshot published so far, oldest first.
    pub closed spec fn published_log(&self) -> Seq<StateModel> {
        self.published.deep_view()
    }

    /// Creates the store and publishes the initial default snapshot, so
    /// components render something before the first fetch completes.
    pub fn new() -> (store: StateStore)
        ensures
            store.current() == empty_state_model(),
            store.published_log() =~= seq![empty_state_model()],
    {
        let state = State::default();
        let mut published: Vec<State> = Vec::new();
        published.push(state.snapshot());
        StateStore { state, published }
    }

    /// A reference to the current state, for rendering and for handing a
    /// fresh snapshot to subscribers.
    pub fn state(&self) -> (s: &State)
        ensures
            s@ == self.current(),
    {
        &self.state
    }

    /// Hands the store's final state and the full publication log to the
    /// caller when the session ends.
    pub fn finish(self) -> (r: (State, Vec<State>))
        ensures
            r.0@ == self.current(),
            r.1.deep_view() == self.published_log(),
    {
        (self.state, self.published)
    }

    /// Publishes the current state: exactly one snapshot is appended to the
    /// log.
    fn publish(&mut self)
        ensures
            final(self).current() == old(self).current(),
            final(self).published_log() =~= old(self).published_log().push(
                old(self).current(),
            ),
    {
        let snapshot = self.state.snapshot();
        self.published.push(snapshot);
    }

    /// Reduces the outcome of an identity lookup and republishes exactly one
    /// snapshot. A failed lookup records its message and leaves the recorded
    /// identity unchanged; the loop goes on.
    pub fn reduce_context_info(&mut self, fetched: Result<Option<String>, String>)
        ensures
            final(self).current() == context_reduced(
                old(self).current(),
                identity_outcome_model(fetched),
            ),
            final(self).published_log() =~= old(self).published_log().push(
                final(self).current(),
            ),
    {
        match fetched {
            Ok(arn) => {
                self.state.caller_arn = arn;
                self.state.context_error = None;
            },
            Err(message) => {
                self.state.context_error = Some(message);
            },
        }
        proof {
            assert(self.state@ =~~= context_reduced(
                old(self).current(),
                identity_outcome_model(fetched),
            ));
        }
        self.publish();
    }

    /// Reduces the outcome of a cluster listing and republishes exactly one
    /// snapshot. A failed listing records its message and leaves the cluster
    /// list unchanged; the loop goes on.
    pub fn reduce_clusters(&mut self, fetched: Result<Vec<String>, String>)
        ensures
            final(self).current() == clusters_reduced(
                old(self).current(),
                clusters_outcome_model(fetched),
            ),
            final(self).published_log() =~= old(self).published_log().push(
                final(self).current(),
            ),
    {
        match fetched {
            Ok(arns) => {
                self.state.cluster_arns = arns;
                self.state.clusters_error = None;
            },
            Err(message) => {
                self.state.clusters_error = Some(message);
            },
        }
        proof {
            assert(self.state@ =~~= clusters_reduced(
                old(self).current(),
                clusters_outcome_model(fetched),
            ));
        }
        self.publish();
    }

    /// Reduces an action that mutates nothing (`Noop`, `Tick`, `Render`):
    /// the unchanged snapshot is still republished, so a snapshot always
    /// follows an action.
    pub fn reduce_passive(&mut self, action: Action)
        requires
            action is Noop || action is Tick || action is Render,
        ensures
            final(self).current() == old(self).current(),
            final(self).published_log() =~= old(self).published_log().push(
                old(self).current(),
            ),
    {
        let _ = action;
        self.publish();
    }

    /// Processes one action as the select loop does: `Quit` terminates the
    /// session (publishing the user-requested reason, no snapshot) and every
    /// other action is reduced — fetch actions through the collaborators —
    /// with exactly one snapshot republished.
    pub fn process(
        &mut self,
        action: Action,
        collaborators: &CollaboratorResponses,
        terminator: &mut Terminator,
    ) -> (exit: Option<Interrupted>)
        ensures
            exit == (if action is Quit {
                Some(Interrupted::UserInt)
            } else {
                None::<Interrupted>
            }),
            action is Quit ==> {
                &&& final(self).current() == old(self).current()
                &&& final(self).published_log() == old(self).published_log()
                &&& final(terminator).reason_of() == terminate_transition(
                    old(terminator).reason_of(),
                    Interrupted::UserInt,
                )
            },
            !(action is Quit) ==> {
                &&& final(self).current() == action_reduced(
                    old(self).current(),
                    action,
                    collaborators@,
                )
                &&& final(self).published_log() =~= old(self).published_log().push(
                    final(self).current(),
                )
                &&& *final(terminator) == *old(terminator)
            },
    {
        match action {
            Action::Quit => {
                let _ = terminator.terminate(Interrupted::UserInt);
                Some(Interrupted::UserInt)
            },
            Action::GetContextInfo => {
                let fetched = collaborators.fetch_identity();
                self.reduce_context_info(fetched);
                None
            },
            Action::GetClusters => {
                let fetched = collaborators.fetch_clusters();
                self.reduce_clusters(fetched);
                None
            },
            _ => {
                self.reduce_passive(action);
                None
            },
        }
    }
}

/// One wake-up of the store's select loop: the next action arrived on the
/// action channel, or an interrupt arrived on the termination broadcast.
#[derive(Clone, Copy, Debug, PartialEq, Eq, Structural)]
pub enum StoreWake {
    Action(Action),
    Interrupt(Interrupted),
}

/// Whether this wake-up ends the select loop: a quit action or an interrupt.
pub open spec fn wake_ends_session(w: StoreWake) -> bool {
    ||| w matches StoreWake::Action(a) && a is Quit
    ||| w is Interrupt
}

/// The actions the loop reduces, in order: every action wake-up before the
/// first session-ending wake-up.
pub open spec fn handled_actions(wakes: Seq<StoreWake>) -> Seq<Action>
    decreases wakes.len(),
{
    if wakes.len() == 0 {
        Seq::empty()
    } else {
        match wakes[0] {
            StoreWake::Action(a) => if a is Quit {
                Seq::empty()
            } else {
                seq![a] + handled_actions(wakes.drop_first())
            },
            StoreWake::Interrupt(_) => Seq::empty(),
        }
    }
}

/// The reason the loop exits with: the user-requested reason on a quit
/// action, the broadcast reason on an interrupt, nothing when the wake-ups
/// run out with the session still live.
pub open spec fn session_exit(wakes: Seq<StoreWake>) -> Option<Interrupted>
    decreases wakes.len(),
{
    if wakes.len() == 0 {
        None
    } else {
        match wakes[0] {
            StoreWake::Action(a) => if a is Quit {
                Some(Interrupted::UserInt)
            } else {
                session_exit(wakes.drop_first())
            },
            StoreWake::Interrupt(reason) => Some(reason),
        }
    }
}

/// Whether the loop ends by a quit action (and therefore authors the
/// user-requested termination itself), rather than by a peer's interrupt.
pub open spec fn quit_requested(wakes: Seq<StoreWake>) -> bool
    decreases wakes.len(),
{
    if wakes.len() == 0 {
        false
    } else {
        match wakes[0] {
            StoreWake::Action(a) => if a is Quit {
                true
            } else {
                quit_requested(wakes.drop_first())
            },
            StoreWake::Interrupt(_) => false,
        }
    }
}

/// The state after reducing `actions` in order from `s`.
pub open spec fn reduction_result(
    s: StateModel,
    actions: Seq<Action>,
    c: CollaboratorModel,
) -> StateModel
    decreases actions.len(),
{
    if actions.len() == 0 {
        s
    } else {
        reduction_result(action_reduced(s, actions[0], c), actions.drop_first(), c)
    }
}

/// The snapshots published while reducing `actions` in order from `s`: one
/// per action, each the state right after its reduction.
pub open spec fn reduction_log(
    s: StateModel,
    actions: Seq<Action>,
    c: CollaboratorModel,
) -> Seq<StateModel>
    decreases actions.len(),
{
    if actions.len() == 0 {
        Seq::empty()
    } else {
        let next = action_reduced(s, actions[0], c);
        seq![next] + reduction_log(next, actions.drop_first(), c)
    }
}

/// Reducing one more action extends the result and the log by exactly that
/// step.
proof fn lemma_reduction_append(
    s: StateModel,
    actions: Seq<Action>,
    a: Action,
    c: CollaboratorModel,
)
    ensures
        reduction_result(s, actions.push(a), c) == action_reduced(
            reduction_result(s, actions, c),
            a,
            c,
        ),
        reduction_log(s, actions.push(a), c) =~= reduction_log(s, actions, c).push(
            action_reduced(reduction_result(s, actions, c), a, c),
        ),
    decreases actions.len(),
{
    if actions.len() == 0 {
        let one = actions.push(a);
        assert(one[0] == a);
        assert(one.drop_first() =~= Seq::<Action>::empty());
        let next = action_reduced(s, a, c);
        assert(reduction_result(next, one.drop_first(), c) == next);
        assert(reduction_result(s, one, c) == next);
        assert(reduction_log(next, one.drop_first(), c) =~= Seq::<StateModel>::empty());
        assert(reduction_log(s, one, c) =~= seq![next]);
        assert(reduction_result(s, actions, c) == s);
        assert(reduction_log(s, actions, c) =~= Seq::<StateModel>::empty());
        assert(reduction_log(s, actions, c).push(next) =~= seq![next]);
    } else {
        lemma_reduction_append(action_reduced(s, actions[0], c), actions.drop_first(), a, c);
        assert(actions.push(a)[0] == actions[0]);
        assert(actions.push(a).drop_first() =~= actions.drop_first().push(a));
        let next = action_reduced(s, actions[0], c);
        let step = action_reduced(reduction_result(s, actions, c), a, c);
        assert(reduction_result(s, actions.push(a), c) == reduction_result(
            next,
            actions.drop_first().push(a),
            c,
        ));
        assert(reduction_result(s, actions, c) == reduction_result(next, actions.drop_first(), c));
        assert(reduction_log(s, actions.push(a), c) =~= seq![next] + reduction_log(
            next,
            actions.drop_first().push(a),
            c,
        ));
        assert(reduction_log(s, actions, c) =~= seq![next] + reduction_log(
            next,
            actions.drop_first(),
            c,
        ));
        assert(seq![next] + reduction_log(next, actions.drop_first(), c).push(step) =~= (seq![next]
            + reduction_log(next, actions.drop_first(), c)).push(step));
    }
}

/// Exactly one snapshot is published per reduced action.
pub proof fn lemma_one_snapshot_per_action(
    s: StateModel,
    actions: Seq<Action>,
    c: CollaboratorModel,
)
    ensures
        reduction_log(s, actions, c).len() == actions.len(),
    decreases actions.len(),
{
    if actions.len() > 0 {
        lemma_one_snapshot_per_action(action_reduced(s, actions[0], c), actions.drop_first(), c);
    }
}

impl StateStore {
    /// Runs the store's select loop over a recorded sequence of wake-ups:
    /// actions are reduced in order, each followed by exactly one published
    /// snapshot, until a quit action (which publishes the user-requested
    /// termination) or an interrupt ends the loop; later wake-ups are never
    /// processed. Together with the one snapshot published at construction,
    /// the publication log holds exactly one snapshot more than the number
    /// of actions handled.
    pub fn event_loop(
        &mut self,
        terminator: &mut Terminator,
        wakes: &Vec<StoreWake>,
        collaborators: &CollaboratorResponses,
    ) -> (exit: Option<Interrupted>)
        ensures
            exit == session_exit(wakes@),
            final(self).current() == reduction_result(
                old(self).current(),
                handled_actions(wakes@),
                collaborators@,
            ),
            final(self).published_log() =~= old(self).published_log() + reduction_log(
                old(self).current(),
                handled_actions(wakes@),
                collaborators@,
            ),
            final(self).published_log().len() == old(self).published_log().len()
                + handled_actions(wakes@).len(),
            quit_requested(wakes@) ==> final(terminator).reason_of() == terminate_transition(
                old(terminator).reason_of(),
                Interrupted::UserInt,
            ),
            !quit_requested(wakes@) ==> *final(terminator) == *old(terminator),
    {
        let ghost c = collaborators@;
        let ghost all = wakes@;
        let ghost mut done: Seq<Action> = Seq::empty();
        let mut i: usize = 0;
        let mut exit: Option<Interrupted> = None;
        proof {
            assert(all.subrange(0, all.len() as int) =~= all);
            assert(done + handled_actions(all) =~= handled_actions(all));
            assert(self.published_log() =~= self.published_log() + reduction_log(
                self.current(),
                done,
                c,
            ));
        }
        while i < wakes.len()
            invariant
                i <= wakes.len(),
                all == wakes@,
                c == collaborators@,
                exit is None,
                self.current() == reduction_result(old(self).current(), done, c),
                self.published_log() =~= old(self).published_log() + reduction_log(
                    old(self).current(),
                    done,
                    c,
                ),
                handled_actions(all) == done + handled_actions(all.subrange(i as int, all.len() as int)),
                session_exit(all) == session_exit(all.subrange(i as int, all.len() as int)),
                quit_requested(all) == quit_requested(all.subrange(i as int, all.len() as int)),
                *terminator == *old(terminator),
            decreases wakes.len() - i,
        {
            let ghost suffix = all.subrange(i as int, all.len() as int);
            proof {
                assert(suffix[0] == all[i as int]);
                assert(suffix.drop_first() =~= all.subrange(i + 1, all.len() as int));
            }
            let wake = wakes[i];
            match wake {
                StoreWake::Action(action) => {
                    let stop = self.process(action, collaborators, terminator);
                    match stop {
                        Some(reason) => {
                            exit = Some(reason);
                        },
                        None => {
                            proof {
                                lemma_reduction_append(old(self).current(), done, action, c);
                                assert(handled_actions(suffix) =~= seq![action]
                                    + handled_actions(suffix.drop_first()));
                                assert(done + handled_actions(suffix) =~= done.push(action)
                                    + handled_actions(suffix.drop_first()));
                                done = done.push(action);
                            }
                        },
                    }
                },
                StoreWake::Interrupt(reason) => {
                    exit = Some(reason);
                },
            }
            if exit.is_some() {
                proof {
                    assert(handled_actions(suffix) =~= Seq::<Action>::empty());
                    assert(done + handled_actions(suffix) =~= done);
                    lemma_one_snapshot_per_action(old(self).current(), done, c);
                }
                return exit;
            }
            i += 1;
        }
        proof {
            let suffix = all.subrange(all.len() as int, all.len() as int);
            assert(suffix =~= Seq::<StoreWake>::empty());
            assert(done + handled_actions(suffix) =~= done);
            lemma_one_snapshot_per_action(old(self).current(), done, c);
        }
        None
    }
}

} // verus!
