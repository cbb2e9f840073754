use vstd::prelude::*;

verus! {

/// The loading flow of the application: it starts out loading assets and,
/// once they are ready, moves on to the running state, which is terminal.
#[derive(Clone, Copy, PartialEq, Eq, Structural, Debug)]
pub enum LoadState {
    AssetLoading,
    Next,
}

impl LoadState {
    /// The state that follows once loading completes: loading continues
    /// to the running state, and the running state persists.
    pub fn advance(self) -> (r: LoadState)
        ensures
            r is Next,
    {
        LoadState::Next
    }
}

impl Default for LoadState {
    /// The application starts out loading assets.
    fn default() -> (r: LoadState)
        ensures
            r is AssetLoading,
    {
        LoadState::AssetLoading
    }
}

} // verus!
