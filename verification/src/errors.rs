//! Error taxonomy of the iteration engine.

use vstd::prelude::*;

verus! {

/// Everything that can go wrong while driving a fixed-point iteration.
///
/// `F` is the scalar type of the problem being solved; it only appears in
/// [`FixedPointError::TooManyIterations`], which carries the final cost so
/// that the caller can judge how far the run was from converging.
#[derive(Clone, Copy, Debug)]
pub enum FixedPointError<F> {
    /// A required capability has no implementation.
    UnimplementedOperation,
    /// The problem's `update` call failed.
    UpdateFailed,
    /// An iterate contains NaN values: the solution has diverged.
    NumericalDivergence,
    /// The iteration budget was exhausted before the tolerance was met;
    /// carries the final cost for diagnostics.
    TooManyIterations(F),
}

} // verus!
