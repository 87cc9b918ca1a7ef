//! The two interfaces of the engine: the problem it solves and the mixing
//! strategies that drive it.

use vstd::prelude::*;

use crate::errors::FixedPointError;
use crate::math::{FPClone, FPFloat, FPHoldsNaN};
use crate::state::{IterData, State, TerminationReason};

verus! {

/// A self-consistent fixed-point problem: find `x` with `update(x) == x`.
///
/// This is the only interface the engine consumes from caller code. The
/// update may hold internal mutable cache state across calls, and it may
/// fail; nothing is assumed about the value it returns.
pub trait FixedPointProblem: Sized {
    /// The type of the output returned by one update step.
    type Output;

    /// The type of the parameter vector being iterated.
    type Param: FPClone;

    /// The scalar (floating-point) type of the problem.
    type Float: FPFloat;

    /// The type of square matrices over the same scalar field.
    type Square;

    /// Carry out one full self-consistent evaluation step.
    fn update(
        &mut self,
        _values: &Self::Param,
    ) -> (r: Result<Self::Param, FixedPointError<Self::Float>>) {
        Err(FixedPointError::UnimplementedOperation)
    }
}

/// A mixing strategy: proposes the next iterate and judges termination.
///
/// `inv` is the strategy's own well-formedness condition; the solver
/// establishes it at construction and each method preserves it. `verdict`
/// is the strategy's termination policy as a function of the strategy and
/// the state; `terminate` judges nothing else — it returns exactly that
/// verdict and leaves the strategy untouched. A strategy further promises
/// to hand back only complete payloads (both fields set) whose proposed
/// parameter is free of NaN entries — a diverged iterate surfaces as an
/// error, never as data — and to fail only with the two mixer-level
/// errors (a failed update or numerical divergence); the iteration-budget
/// verdict belongs to the solver alone.
pub trait MixerMethods<Problem: FixedPointProblem>: Sized where
    Problem::Param: FPHoldsNaN,
{
    /// Well-formedness of the strategy's internal memory.
    spec fn inv(self) -> bool;

    /// The strategy's termination policy, judged on a state.
    spec fn verdict(self, state: State<Problem>) -> TerminationReason;

    /// The display name of the mixing algorithm.
    fn name(&self) -> (r: &'static str);

    /// Produce one iteration's proposed parameter and cost.
    fn next_iter(
        &mut self,
        op: &mut Problem,
        state: &State<Problem>,
    ) -> (r: Result<IterData<Problem>, FixedPointError<Problem::Float>>)
        requires
            old(self).inv(),
        ensures
            final(self).inv(),
            r is Ok ==> r->Ok_0.param is Some && r->Ok_0.cost is Some,
            r is Ok ==> !r->Ok_0.param->Some_0.holds_nan_spec(),
            r is Err ==> r->Err_0 is UpdateFailed || r->Err_0 is NumericalDivergence,
    ;

    /// Judge whether the iteration recorded in `state` should stop.
    fn terminate(
        &mut self,
        state: &State<Problem>,
    ) -> (r: Result<TerminationReason, FixedPointError<Problem::Float>>)
        requires
            old(self).inv(),
        ensures
            final(self).inv(),
            *final(self) == *old(self),
            r is Ok ==> r->Ok_0 == old(self).verdict(*state),
            r is Err ==> r->Err_0 is UpdateFailed || r->Err_0 is NumericalDivergence,
    ;
}

} // verus!
