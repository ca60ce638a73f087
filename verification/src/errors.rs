//! Error taxonomy of the solver core.
//!
//! The only fatal condition the core can detect on its own is a run asked to
//! take zero steps: the step size of a uniform grid over `[t0, t_end]` with
//! `N` steps is `(t_end - t0) / N`, which is undefined for `N = 0`.

use vstd::prelude::*;

verus! {

/// Why a run configuration was rejected.
#[derive(Clone, Copy, Debug, PartialEq, Eq, Structural)]
pub enum SolverError {
    /// The configuration asked for a grid with zero steps, leaving the
    /// step size undefined.
    InvalidArgument,
}

} // verus!
