//! The load-state machine's state: one process-wide value with initial
//! state `Loading` and the one-way legal transitions `Loading -> Done`
//! (primary asset complete) and `Loading -> Failed` (a load reported
//! failure). `Done` and `Failed` are terminal.

use vstd::prelude::*;

verus! {

/// The phase the scene loader is in.
#[derive(PartialEq, Eq, Structural, Clone, Copy, Debug)]
pub enum AssetLoaderState {
    /// Load requests were issued; the primary asset has not completed yet.
    Loading,
    /// The primary asset completed; per-frame scene logic may run.
    Done,
    /// A load reported failure; the scene can never become ready. Terminal,
    /// so that a lost asset is a visible diagnostic rather than an endless
    /// `Loading` phase.
    Failed,
}

impl Default for AssetLoaderState {
    /// The documented initial state.
    fn default() -> (s: Self)
        ensures
            s == AssetLoaderState::Loading,
    {
        AssetLoaderState::Loading
    }
}

} // verus!
