//! Coordinated shutdown: a single broadcast cell that every long-running loop
//! races against its normal work.
//!
//! The first call to [`Terminator::terminate`] publishes its reason; later
//! calls are no-ops that report the already-terminated status. The cell is
//! level-triggered: a subscriber that looks late still observes the one
//! published reason, and no subscriber ever observes more than one.

use vstd::prelude::*;

verus! {

/// Reason code for ending the interactive session.
#[derive(Clone, Copy, Debug, PartialEq, Eq, Structural)]
pub enum Interrupted {
    /// The user asked to quit.
    UserInt,
    /// The operating system delivered an interrupt signal.
    OsSigInt,
}

/// What a `terminate` call does to the published reason: the first reason
/// wins, every later call leaves the cell unchanged.
pub open spec fn terminate_transition(
    published: Option<Interrupted>,
    reason: Interrupted,
) -> Option<Interrupted> {
    if published is Some {
        published
    } else {
        Some(reason)
    }
}

/// The write half of the termination broadcast. It owns the cell holding the
/// first published reason; subscribers observe that cell through
/// [`Terminator::reason`].
pub struct Terminator {
    published: Option<Interrupted>,
}

/// Creates the termination coordinator with no reason published yet.
/// Subscribers are modeled as reads of [`Terminator::reason`]: the broadcast
/// is level-triggered, so every current and future subscriber observes the
/// same single value.
pub fn create_termination() -> (t: Terminator)
    ensures
        t.reason_of() is None,
{
    Terminator { published: None }
}

impl Terminator {
    /// The reason published so far, if any.
    pub closed spec fn reason_of(&self) -> Option<Interrupted> {
        self.published
    }

    /// Publishes `reason` if no reason has been published yet; otherwise a
    /// no-op. Returns whether this call was the one that published, so a
    /// caller can tell "terminated now" from "already terminated" without an
    /// error path.
    pub fn terminate(&mut self, reason: Interrupted) -> (fresh: bool)
        ensures
            final(self).reason_of() == terminate_transition(old(self).reason_of(), reason),
            fresh == (old(self).reason_of() is None),
    {
        match self.published {
            Some(_) => false,
            None => {
                self.published = Some(reason);
                true
            },
        }
    }

    /// What any subscriber, current or future, observes on the broadcast.
    pub fn reason(&self) -> (r: Option<Interrupted>)
        ensures
            r == self.reason_of(),
    {
        self.published
    }
}

/// Terminating is idempotent: after a first reason is published, a second
/// call with any reason (equal or different) yields the first reason at every
/// subscriber.
pub proof fn lemma_terminate_first_reason_wins(first: Interrupted, second: Interrupted)
    ensures
        terminate_transition(terminate_transition(None, first), second) == Some(first),
{
}

/// Once a reason is published it never changes, so no subscriber ever
/// observes more than one reason over the life of the process.
pub proof fn lemma_published_reason_stable(published: Option<Interrupted>, reason: Interrupted)
    requires
        published is Some,
    ensures
        terminate_transition(published, reason) == published,
{
}

} // verus!
