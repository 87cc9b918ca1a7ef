//! The generic fixed-point driver.

use vstd::prelude::*;

use crate::errors::FixedPointError;
use crate::math::{cost_le, cost_le_transitive, FPClone, FPFloat, FPHoldsNaN};
use crate::state::{IterData, State, TerminationReason};
use crate::traits::{FixedPointProblem, MixerMethods};

verus! {

/// Solver of a fixed-point problem: owns a mixing strategy and the
/// iteration state, and drives the loop.
pub struct FixedPointSolver<Problem: FixedPointProblem, Mixer> {
    /// The mixing strategy.
    pub mixer: Mixer,
    /// The starting parameter the solver was built from.
    pub data: Problem::Param,
    /// The iteration state.
    pub state: State<Problem>,
}

/// Summary of a finished run: final parameter, final cost, whether the
/// iteration terminated through the mixer's verdict, and how many
/// iterations were accepted.
pub struct FixedPointResult<Problem: FixedPointProblem> {
    /// The final parameter vector.
    pub param: Problem::Param,
    /// The final cost.
    pub cost: Problem::Float,
    /// Whether the run stopped on a mixer verdict.
    pub terminated: bool,
    /// The number of accepted iterations.
    pub iteration_count: u64,
}

impl<Problem: FixedPointProblem> FixedPointResult<Problem> {
    /// Return the parameter from the result.
    pub fn get_param(&self) -> (r: Problem::Param)
        ensures
            r == self.param,
    {
        self.param.fp_clone()
    }

    /// Return the cost at the end of the run.
    pub fn get_cost(&self) -> (r: Problem::Float)
        ensures
            r == self.cost,
    {
        self.cost
    }

    /// Whether the iteration scheme terminated on a mixer verdict.
    pub fn is_terminated(&self) -> (r: bool)
        ensures
            r == self.terminated,
    {
        self.terminated
    }

    /// The total number of accepted fixed-point iterations.
    pub fn iteration_count(&self) -> (r: u64)
        ensures
            r == self.iteration_count,
    {
        self.iteration_count
    }
}

impl<Problem, Mixer> FixedPointSolver<Problem, Mixer> where
    Problem: FixedPointProblem,
    Problem::Param: FPHoldsNaN,
    Mixer: MixerMethods<Problem>,
{
    /// Create a solver from a mixing strategy and a starting parameter.
    pub fn new(mixer: Mixer, initial_parameter: Problem::Param) -> (r: Self)
        requires
            mixer.inv(),
        ensures
            r.mixer == mixer,
            r.data == initial_parameter,
            r.state == (State::<Problem> {
                param: initial_parameter,
                prev_param: initial_parameter,
                best_param: initial_parameter,
                prev_best_param: initial_parameter,
                cost: Problem::Float::infinity_spec(),
                prev_cost: Problem::Float::infinity_spec(),
                best_cost: Problem::Float::infinity_spec(),
                prev_best_cost: Problem::Float::infinity_spec(),
                iter: 0,
                max_iters: u64::MAX,
                termination_reason: crate::state::TerminationReason::NotTerminated,
            }),
    {
        FixedPointSolver {
            mixer,
            data: initial_parameter.fp_clone(),
            state: State::new(initial_parameter),
        }
    }

    /// Builder step: set the iteration budget.
    pub fn max_iters(self, max_iters: u64) -> (r: Self)
        ensures
            r == (FixedPointSolver {
                state: State { max_iters, ..self.state },
                ..self
            }),
    {
        FixedPointSolver {
            state: State { max_iters, ..self.state },
            ..self
        }
    }

    /// Run the fixed-point iteration until the mixer's verdict stops it,
    /// then report the outcome.
    ///
    /// Each loop turn asks the mixer for a verdict, stops if it says so,
    /// and otherwise folds the mixer's payload into the state — so on a
    /// successful run `iteration_count` equals the number of `next_iter`
    /// calls whose payload was accepted, the best cost never increased,
    /// and (once at least one iteration ran) the reported parameter is
    /// free of NaN entries. A run that stops on the mixer's verdict with
    /// budget left always returns the summary; one that stops with the
    /// budget spent (`iter >= max_iters`) reports `TooManyIterations`
    /// with the final cost; a mixer failure is passed through unchanged.
    /// Whenever a run not already terminated at entry ends terminated,
    /// the recorded reason is exactly the mixer's verdict of the final
    /// state (as it stood before the reason was written); a run entered
    /// on an already-terminated state touches nothing.
    pub fn run(
        &mut self,
        op: &mut Problem,
    ) -> (r: Result<FixedPointResult<Problem>, FixedPointError<Problem::Float>>)
        requires
            old(self).mixer.inv(),
        ensures
            final(self).mixer.inv(),
            final(self).state.max_iters == old(self).state.max_iters,
            final(self).state.iter >= old(self).state.iter,
            cost_le(final(self).state.best_cost, old(self).state.best_cost),
            r is Ok ==> final(self).state.terminated_spec()
                && final(self).state.iter < final(self).state.max_iters,
            r is Ok ==> r->Ok_0.param == final(self).state.param
                && r->Ok_0.cost == final(self).state.cost
                && r->Ok_0.terminated == final(self).state.terminated_spec()
                && r->Ok_0.iteration_count == final(self).state.iter,
            r is Ok && final(self).state.iter > old(self).state.iter
                ==> !final(self).state.param.holds_nan_spec(),
            r matches Err(FixedPointError::TooManyIterations(c))
                ==> c == final(self).state.cost
                    && final(self).state.iter >= final(self).state.max_iters,
            final(self).state.terminated_spec()
                && final(self).state.iter >= final(self).state.max_iters
                ==> r matches Err(FixedPointError::TooManyIterations(..)),
            final(self).state.terminated_spec()
                && final(self).state.iter < final(self).state.max_iters
                ==> r is Ok,
            old(self).state.terminated_spec() ==> *final(self) == *old(self),
            final(self).state.terminated_spec() && !old(self).state.terminated_spec()
                ==> final(self).state.termination_reason == final(self).mixer.verdict(
                    (State {
                        termination_reason: TerminationReason::NotTerminated,
                        ..final(self).state
                    }),
                ),
    {
        loop
            invariant_except_break
                !old(self).state.terminated_spec() ==> !self.state.terminated_spec(),
            invariant
                self.mixer.inv(),
                self.state.max_iters == old(self).state.max_iters,
                self.state.iter >= old(self).state.iter,
                cost_le(self.state.best_cost, old(self).state.best_cost),
                self.state.iter > old(self).state.iter
                    ==> !self.state.param.holds_nan_spec(),
                self.data == old(self).data,
                old(self).state.terminated_spec()
                    ==> self.state == old(self).state && self.mixer == old(self).mixer,
            ensures
                self.mixer.inv(),
                self.state.max_iters == old(self).state.max_iters,
                self.state.iter >= old(self).state.iter,
                cost_le(self.state.best_cost, old(self).state.best_cost),
                self.state.iter > old(self).state.iter
                    ==> !self.state.param.holds_nan_spec(),
                self.data == old(self).data,
                old(self).state.terminated_spec()
                    ==> self.state == old(self).state && self.mixer == old(self).mixer,
                self.state.terminated_spec() && !old(self).state.terminated_spec()
                    ==> self.state.termination_reason == self.mixer.verdict(
                        (State {
                            termination_reason: TerminationReason::NotTerminated,
                            ..self.state
                        }),
                    ),
                self.state.terminated_spec() || self.state.iter == u64::MAX,
            decreases u64::MAX - self.state.iter,
        {
            if !self.state.terminated() {
                let verdict = match self.mixer.terminate(&self.state) {
                    Ok(v) => v,
                    Err(e) => return Err(e),
                };
                self.state.termination_reason(verdict);
            }

            if self.state.terminated() {
                break;
            }
            if self.state.iter == u64::MAX {
                break;
            }

            let output = match self.mixer.next_iter(op, &self.state) {
                Ok(o) => o,
                Err(e) => return Err(e),
            };
            let ghost best_before = self.state.best_cost;
            self.update(&output);
            proof {
                cost_le_transitive(
                    self.state.best_cost,
                    best_before,
                    old(self).state.best_cost,
                );
            }
        }

        if self.state.iter < self.state.max_iters {
            Ok(self.generate_result())
        } else {
            Err(FixedPointError::TooManyIterations(self.state.cost))
        }
    }

    /// Generate the result summary from the current state.
    fn generate_result(&self) -> (r: FixedPointResult<Problem>)
        ensures
            r.param == self.state.param,
            r.cost == self.state.cost,
            r.terminated == self.state.terminated_spec(),
            r.iteration_count == self.state.iter,
    {
        FixedPointResult {
            param: self.state.get_param(),
            cost: self.state.cost,
            terminated: self.state.terminated(),
            iteration_count: self.state.iter,
        }
    }

    /// Fold one accepted payload into the state: the current slots shift
    /// to the previous slots, the payload becomes current, the best slots
    /// shift forward exactly when the new cost improves on the best one,
    /// and the iteration counter advances by one. The best cost therefore
    /// never increases from one update to the next.
    pub fn update(&mut self, output: &IterData<Problem>)
        requires
            old(self).state.iter < u64::MAX,
            output.param is Some,
            output.cost is Some,
        ensures
            final(self).mixer == old(self).mixer,
            final(self).data == old(self).data,
            final(self).state.param == output.param->Some_0,
            final(self).state.prev_param == old(self).state.param,
            final(self).state.cost == output.cost->Some_0,
            final(self).state.prev_cost == old(self).state.cost,
            final(self).state.iter == old(self).state.iter + 1,
            final(self).state.max_iters == old(self).state.max_iters,
            final(self).state.termination_reason == old(self).state.termination_reason,
            cost_le(final(self).state.best_cost, old(self).state.best_cost),
            final(self).state.best_cost == (
                if output.cost->Some_0.lt_spec(old(self).state.best_cost) {
                    output.cost->Some_0
                } else {
                    old(self).state.best_cost
                }
            ),
            final(self).state.best_param == (
                if output.cost->Some_0.lt_spec(old(self).state.best_cost) {
                    output.param->Some_0
                } else {
                    old(self).state.best_param
                }
            ),
            final(self).state.prev_best_cost == (
                if output.cost->Some_0.lt_spec(old(self).state.best_cost) {
                    old(self).state.best_cost
                } else {
                    old(self).state.prev_best_cost
                }
            ),
            final(self).state.prev_best_param == (
                if output.cost->Some_0.lt_spec(old(self).state.best_cost) {
                    old(self).state.best_param
                } else {
                    old(self).state.prev_best_param
                }
            ),
    {
        self.state.prev_param = self.state.param.fp_clone();
        self.state.param = output.get_param().unwrap();
        self.state.prev_cost = self.state.cost;
        self.state.cost = output.get_cost().unwrap();

        if self.state.cost.lt(&self.state.best_cost) {
            self.state.prev_best_cost = self.state.best_cost;
            self.state.prev_best_param = self.state.best_param.fp_clone();
            self.state.best_cost = self.state.cost;
            self.state.best_param = self.state.param.fp_clone();
        }

        self.state.iter = self.state.iter + 1;
    }
}

} // verus!
