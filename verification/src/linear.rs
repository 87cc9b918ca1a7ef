//! The baseline strategy: plain linear mixing with a relaxation parameter.

use vstd::prelude::*;

use crate::errors::FixedPointError;
use crate::math::{FPAdd, FPFloat, FPHoldsNaN, FPMul, FPNorm, FPSub};
use crate::state::{tolerance_verdict, IterData, State, TerminationReason};
use crate::traits::{FixedPointProblem, MixerMethods};

verus! {

/// A simple linear mixer with controlled relaxation: each step proposes
/// `beta * update(x) + (1 - beta) * x`.
pub struct LinearMixer<T> {
    /// Relaxation parameter.
    pub beta: T,
    /// Tolerance target.
    pub tol: T,
    /// Maximum number of iterations.
    pub max_iter: u64,
}

impl<T: FPFloat> LinearMixer<T> {
    /// Create a linear mixer from its relaxation parameter, tolerance
    /// target and iteration budget.
    pub fn new(beta: T, tol: T, max_iter: u64) -> (r: Self)
        ensures
            r.beta == beta,
            r.tol == tol,
            r.max_iter == max_iter,
    {
        LinearMixer { beta, tol, max_iter }
    }

    /// The relaxation blend `beta * output + (1 - beta) * param`.
    pub open spec fn blend_spec<Problem>(
        self,
        output: Problem::Param,
        param: Problem::Param,
    ) -> Problem::Param where
        Problem: FixedPointProblem<Float = T>,
        Problem::Param: FPMul<Problem::Float, Problem::Param>
            + FPAdd<Problem::Param, Problem::Param>,
    {
        output.mul_spec(self.beta).add_spec(
            param.mul_spec(T::one_spec().sub_spec(self.beta)),
        )
    }

    /// The work one mixing turn does with the problem's output: blend it
    /// with the current parameter under the relaxation factor, reject a
    /// NaN-carrying blend as numerical divergence, and otherwise price
    /// the blend by its distance from the current parameter. The
    /// contract fixes the whole outcome for every value of the output:
    /// the payload holds exactly the blend and exactly that norm, and
    /// the divergence error comes exactly when the blend holds NaN.
    pub fn linear_step<Problem>(
        &self,
        output: Problem::Param,
        param: &Problem::Param,
    ) -> (r: Result<IterData<Problem>, FixedPointError<Problem::Float>>) where
        Problem: FixedPointProblem<Float = T>,
        Problem::Param: FPMul<Problem::Float, Problem::Param>
            + FPAdd<Problem::Param, Problem::Param>
            + FPSub<Problem::Param, Problem::Param>
            + FPNorm<Problem::Float>
            + FPHoldsNaN,
        ensures
            r is Err <==> self.blend_spec::<Problem>(output, *param).holds_nan_spec(),
            r is Err ==> r->Err_0 is NumericalDivergence,
            r matches Ok(d) ==> d.param == Some(self.blend_spec::<Problem>(output, *param))
                && d.cost == Some(
                    self.blend_spec::<Problem>(output, *param).sub_spec(*param).norm_spec(),
                ),
    {
        let relax = T::one().sub(&self.beta);
        let new_param = output.mul(&self.beta).add(&param.mul(&relax));

        if new_param.holds_nan() {
            return Err(FixedPointError::NumericalDivergence);
        }

        let cost = new_param.sub(param).norm();
        Ok(IterData::new().cost(cost).param(new_param))
    }
}

impl<T: FPFloat> Default for LinearMixer<T> {
    /// The default configuration: no relaxation, a tolerance of one part
    /// in a million, and a budget of a thousand iterations.
    fn default() -> (r: Self)
        ensures
            r.beta == T::one_spec(),
            r.tol == T::pow10_spec(-6i32),
            r.max_iter == 1000,
    {
        LinearMixer::new(T::one(), T::pow10(-6), 1000)
    }
}

impl<T, Problem> MixerMethods<Problem> for LinearMixer<T> where
    Problem: FixedPointProblem<Float = T>,
    Problem::Param: FPMul<Problem::Float, Problem::Param>
        + FPAdd<Problem::Param, Problem::Param>
        + FPSub<Problem::Param, Problem::Param>
        + FPNorm<Problem::Float>
        + FPHoldsNaN,
    T: FPFloat,
{
    /// The linear mixer keeps no internal memory.
    open spec fn inv(self) -> bool {
        true
    }

    /// The shared tolerance-versus-budget policy over this mixer's own
    /// tolerance and budget.
    open spec fn verdict(self, state: State<Problem>) -> TerminationReason {
        tolerance_verdict(state.cost, self.tol, state.iter, self.max_iter)
    }

    fn name(&self) -> (r: &'static str) {
        "Linear Mixing"
    }

    /// One relaxation step: evaluate the problem at the current
    /// parameter and hand the output to [`LinearMixer::linear_step`],
    /// which fixes the rest of the outcome. A failed update aborts the
    /// turn with `UpdateFailed`; on success the payload carries a blend
    /// of some problem output with the current parameter, priced by its
    /// distance from that parameter; a divergence error means some
    /// output blended into NaN. The mixer itself never changes.
    fn next_iter(
        &mut self,
        op: &mut Problem,
        state: &State<Problem>,
    ) -> (r: Result<IterData<Problem>, FixedPointError<Problem::Float>>)
        ensures
            *final(self) == *old(self),
            r is Ok ==> r->Ok_0.cost == Some(
                r->Ok_0.param->Some_0.sub_spec(state.param).norm_spec(),
            ),
            r is Ok ==> (exists |out: Problem::Param|
                r->Ok_0.param == Some(
                    #[trigger] old(self).blend_spec::<Problem>(out, state.param),
                )),
            r matches Err(e) && e is NumericalDivergence ==> (exists |out: Problem::Param|
                (#[trigger] old(self).blend_spec::<Problem>(out, state.param))
                    .holds_nan_spec()),
    {
        let param = state.get_param();
        let output = match op.update(&param) {
            Ok(x) => x,
            Err(_) => return Err(FixedPointError::UpdateFailed),
        };
        self.linear_step(output, &param)
    }

    /// The shared tolerance-versus-budget verdict, judged on the state's
    /// recorded cost and counter; never fails.
    fn terminate(
        &mut self,
        state: &State<Problem>,
    ) -> (r: Result<TerminationReason, FixedPointError<Problem::Float>>)
        ensures
            *final(self) == *old(self),
            r is Ok,
            r->Ok_0 == tolerance_verdict(
                state.cost,
                old(self).tol,
                state.iter,
                old(self).max_iter,
            ),
    {
        let condition = if state.cost.lt(&self.tol) {
            TerminationReason::ToleranceBeaten
        } else if state.iter > self.max_iter {
            TerminationReason::HitMaxIterations
        } else {
            TerminationReason::NotTerminated
        };
        Ok(condition)
    }
}

} // verus!
