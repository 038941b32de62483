//! Requests for the state store to perform a reduction step, produced by the
//! application runtime's key bindings or by a component's initialization and
//! consumed exclusively by the state store.

use vstd::prelude::*;

verus! {

/// A request for the state store: either a no-op wake-up, a shutdown request,
/// or an instruction to fetch data from an external collaborator.
#[derive(Clone, Copy, Debug, PartialEq, Eq, Structural)]
pub enum Action {
    /// Nothing to do; the store still republishes its snapshot.
    Noop,
    /// End the session on the user's request.
    Quit,
    /// A periodic wake-up; no mutation.
    Tick,
    /// A redraw request; no mutation.
    Render,
    /// Look up the caller identity and record its ARN.
    GetContextInfo,
    /// List the clusters and replace the recorded cluster ARNs.
    GetClusters,
}

} // verus!
