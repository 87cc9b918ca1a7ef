//! Iteration state shared between the solver and the mixers.

use vstd::prelude::*;

use crate::math::{FPClone, FPFloat};
use crate::traits::FixedPointProblem;

verus! {

/// Why (or whether) the iteration has stopped.
#[derive(Clone, Copy, Debug, PartialEq, Eq, Structural)]
pub enum TerminationReason {
    /// The iteration is in progress.
    NotTerminated,
    /// The iteration has converged below the tolerance.
    ToleranceBeaten,
    /// The maximum number of iterations has been reached.
    HitMaxIterations,
}

/// The termination policy both bundled mixers follow: converged when the
/// recorded cost is strictly below the tolerance, out of budget when the
/// iteration counter has passed the mixer's own maximum, and otherwise
/// still in progress.
pub open spec fn tolerance_verdict<F: FPFloat>(
    cost: F,
    tol: F,
    iter: u64,
    max_iter: u64,
) -> TerminationReason {
    if cost.lt_spec(tol) {
        TerminationReason::ToleranceBeaten
    } else if iter > max_iter {
        TerminationReason::HitMaxIterations
    } else {
        TerminationReason::NotTerminated
    }
}

/// Mutable record of the iteration: current/previous/best iterate and cost,
/// the iteration counter and budget, and the termination status.
///
/// The solver owns the state and is the only writer of its parameter and
/// cost fields (through its update step); mixers read it and only its
/// termination reason is set from their verdict, once per loop turn.
pub struct State<Problem: FixedPointProblem> {
    /// Current parameter vector.
    pub param: Problem::Param,
    /// Previous parameter vector.
    pub prev_param: Problem::Param,
    /// Parameter vector of the best cost seen so far.
    pub best_param: Problem::Param,
    /// Previous best parameter vector.
    pub prev_best_param: Problem::Param,
    /// Current cost.
    pub cost: Problem::Float,
    /// Previous cost.
    pub prev_cost: Problem::Float,
    /// Best cost seen so far.
    pub best_cost: Problem::Float,
    /// Previous best cost.
    pub prev_best_cost: Problem::Float,
    /// Number of accepted iterations so far.
    pub iter: u64,
    /// Iteration budget.
    pub max_iters: u64,
    /// Termination status.
    pub termination_reason: TerminationReason,
}

impl<Problem: FixedPointProblem> State<Problem> {
    /// True exactly when a termination reason other than `NotTerminated`
    /// has been recorded.
    pub open spec fn terminated_spec(self) -> bool {
        self.termination_reason != TerminationReason::NotTerminated
    }

    /// Generate the initial state: every parameter slot holds the starting
    /// point, every cost slot is at infinity, and no iteration has run.
    pub fn new(param: Problem::Param) -> (r: Self)
        ensures
            r.param == param,
            r.prev_param == param,
            r.best_param == param,
            r.prev_best_param == param,
            r.cost == Problem::Float::infinity_spec(),
            r.prev_cost == Problem::Float::infinity_spec(),
            r.best_cost == Problem::Float::infinity_spec(),
            r.prev_best_cost == Problem::Float::infinity_spec(),
            r.iter == 0,
            r.max_iters == u64::MAX,
            r.termination_reason == TerminationReason::NotTerminated,
    {
        State {
            param: param.fp_clone(),
            prev_param: param.fp_clone(),
            best_param: param.fp_clone(),
            prev_best_param: param,
            cost: Problem::Float::infinity(),
            prev_cost: Problem::Float::infinity(),
            best_cost: Problem::Float::infinity(),
            prev_best_cost: Problem::Float::infinity(),
            iter: 0,
            max_iters: u64::MAX,
            termination_reason: TerminationReason::NotTerminated,
        }
    }

    /// Whether the iteration has terminated.
    pub fn terminated(&self) -> (r: bool)
        ensures
            r == self.terminated_spec(),
    {
        match self.termination_reason {
            TerminationReason::NotTerminated => false,
            TerminationReason::ToleranceBeaten => true,
            TerminationReason::HitMaxIterations => true,
        }
    }

    /// Record a termination verdict (last write wins).
    pub fn termination_reason(&mut self, reason: TerminationReason)
        ensures
            *final(self) == (State { termination_reason: reason, ..*old(self) }),
    {
        self.termination_reason = reason;
    }

    /// Return a copy of the current parameter vector.
    pub fn get_param(&self) -> (r: Problem::Param)
        ensures
            r == self.param,
    {
        self.param.fp_clone()
    }
}

/// Payload produced by one mixing step: the proposed parameter and its
/// residual cost, built through a builder and consumed by the solver.
pub struct IterData<Problem: FixedPointProblem> {
    /// The proposed parameter for the current step.
    pub param: Option<Problem::Param>,
    /// The associated cost `||f(x) - x||`.
    pub cost: Option<Problem::Float>,
}

impl<Problem: FixedPointProblem> IterData<Problem> {
    /// Create an empty payload.
    pub fn new() -> (r: Self)
        ensures
            r.param is None,
            r.cost is None,
    {
        IterData { param: None, cost: None }
    }

    /// Builder step: set the `param` field.
    pub fn param(self, param: Problem::Param) -> (r: Self)
        ensures
            r.param == Some(param),
            r.cost == self.cost,
    {
        IterData { param: Some(param), ..self }
    }

    /// Builder step: set the `cost` field.
    pub fn cost(self, cost: Problem::Float) -> (r: Self)
        ensures
            r.cost == Some(cost),
            r.param == self.param,
    {
        IterData { cost: Some(cost), ..self }
    }

    /// Return a copy of the proposed parameter, if one was set.
    pub fn get_param(&self) -> (r: Option<Problem::Param>)
        ensures
            r == self.param,
    {
        match &self.param {
            Some(p) => Some(p.fp_clone()),
            None => None,
        }
    }

    /// Return the proposed cost, if one was set.
    pub fn get_cost(&self) -> (r: Option<Problem::Float>)
        ensures
            r == self.cost,
    {
        self.cost
    }
}

} // verus!
