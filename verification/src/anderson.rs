//! The Type-I Anderson mixer: limited-memory least-squares extrapolation
//! with Powell regularization and a linear-step safeguard.

use vstd::prelude::*;

use crate::errors::FixedPointError;
use crate::math::{
    FPAdd, FPClone, FPDiv, FPDot, FPEmpty, FPFloat, FPFromZeros, FPHoldsNaN, FPInto2D, FPMul, FPNorm,
    FPStack, FPSub, FPTranspose,
};
use crate::state::{tolerance_verdict, IterData, State, TerminationReason};
use crate::traits::{FixedPointProblem, MixerMethods};

verus! {

/// The next value of a counter that sticks at its ceiling instead of
/// wrapping.
pub open spec fn saturating_inc(v: u64) -> u64 {
    if v == u64::MAX {
        u64::MAX
    } else {
        (v + 1) as u64
    }
}

/// Type-I Anderson mixer with Powell stabilisation.
///
/// Across calls it keeps the previous and candidate iterates (`x0`/`x1`),
/// the problem outputs at those iterates (`fx0`/`fx1`), the residuals
/// (`g0`/`g1`/`g_prev`), the step and its orthogonalised form
/// (`s0`/`s0_hat`), and a bounded low-rank memory (`hv1`, `hv2`,
/// `s_hat_memory`) that encodes an implicit inverse-Jacobian
/// approximation. The memory is wiped whenever regularization detects
/// near-linear dependence or the window overflows.
pub struct Type1AndersonMixer<T, Problem: FixedPointProblem> {
    /// Dimension of the parameter vectors.
    pub dim: usize,
    /// Tolerance target.
    pub tol: T,
    /// Regularisation parameter.
    pub regularisation: T,
    /// Safeguard factor bounding how far an Anderson step may stray.
    pub safeguard_factor: T,
    /// Number of calls taken so far.
    pub iter: u64,
    /// Number of memory rows accumulated since the last reset (counting
    /// the row about to be appended).
    pub m: u64,
    /// Maximum number of iterations.
    pub max_iter: u64,
    /// Relaxation parameter of the linear fallback step.
    pub beta: T,
    /// Exponent controlling the safeguard decay.
    pub epsilon: T,
    /// Regularisation tolerance for near-linear dependence.
    pub tau: T,
    /// Size of the memory window.
    pub memory: u64,
    /// Powell clipping threshold.
    pub theta_bar: T,
    /// First low-rank factor of the inverse-Jacobian correction.
    pub hv1: Problem::Square,
    /// Second low-rank factor of the inverse-Jacobian correction.
    pub hv2: Problem::Square,
    /// The designated step accumulator.
    pub s: Problem::Param,
    /// Problem output at the previous iterate.
    pub fx0: Problem::Param,
    /// Previous iterate.
    pub x0: Problem::Param,
    /// Residual difference `g1 - g0`.
    pub y0: Problem::Param,
    /// Residual at the previous iterate.
    pub g0: Problem::Param,
    /// Step `x1 - x0`.
    pub s0: Problem::Param,
    /// Problem output at the candidate iterate.
    pub fx1: Problem::Param,
    /// Candidate iterate.
    pub x1: Problem::Param,
    /// Residual at the candidate iterate.
    pub g1: Problem::Param,
    /// Residual kept from the previous turn for Powell blending.
    pub g_prev: Problem::Param,
    /// The step orthogonalised against the memory basis.
    pub s0_hat: Problem::Param,
    /// Orthonormal basis of past normalised steps.
    pub s_hat_memory: Problem::Square,
    /// Powell-blended residual difference.
    pub y_tilde: Problem::Param,
    /// Reference residual norm at the last Anderson acceptance.
    pub ubar: T,
    /// Count of accepted Anderson steps.
    pub n_anderson: u64,
}

impl<T, Problem> Type1AndersonMixer<T, Problem> where
    Problem: FixedPointProblem<Float = T>,
    Problem::Param: FPFromZeros
        + FPSub<Problem::Param, Problem::Param>
        + FPNorm<Problem::Float>
        + FPMul<Problem::Float, Problem::Param>
        + FPAdd<Problem::Param, Problem::Param>
        + FPDiv<Problem::Float, Problem::Param>
        + FPTranspose<Problem::Param>
        + FPDot<Problem::Square, Problem::Param>
        + FPDot<Problem::Param, Problem::Float>
        + FPInto2D<Problem::Square>
        + FPHoldsNaN,
    Problem::Square: FPFromZeros
        + FPTranspose<Problem::Square>
        + FPDot<Problem::Param, Problem::Param>
        + FPStack<Problem::Param, Problem::Square>,
    T: FPFloat,
{
    /// The number of memory rows the mixer may hold at any point: the
    /// configured window, except that a window of zero still admits the
    /// single row each turn must append before the next reset.
    pub open spec fn mem_capacity(self) -> int {
        if self.memory == 0 {
            1int
        } else {
            self.memory as int
        }
    }

    /// The implicit inverse-Jacobian action `H(v)`: `v` untouched while no
    /// memory has accumulated, and otherwise `v + hv1^t . (hv2 . v)`.
    pub open spec fn h_aa_spec(self, input: Problem::Param) -> Problem::Param {
        if self.hv1.row_count() == 0 || self.hv2.row_count() == 0 {
            input
        } else {
            input.add_spec(self.hv1.t_spec().dot_spec(self.hv2.dot_spec(input)))
        }
    }

    /// The damped linear fallback step `beta * fx0 + (1 - beta) * x0`.
    pub open spec fn linear_blend(self) -> Problem::Param {
        self.fx0.mul_spec(self.beta).add_spec(
            self.x0.mul_spec(T::one_spec().sub_spec(self.beta)),
        )
    }

    /// The safeguard bound `ubar * safeguard_factor * (n+1)^(-1-epsilon)`
    /// that the candidate residual norm is held against.
    pub open spec fn safeguard_bound(self) -> T {
        self.ubar.mul_spec(self.safeguard_factor).mul_spec(
            T::from_u64_spec(saturating_inc(self.n_anderson)).powf_spec(
                T::one_spec().neg_spec().sub_spec(self.epsilon),
            ),
        )
    }

    /// Whether the safeguard accepts the Anderson step: always on the
    /// very first turn, and otherwise when the residual norm stays within
    /// the safeguard bound.
    pub open spec fn anderson_accept(self) -> bool {
        self.iter == 0 || self.g0.norm_spec().le_spec(self.safeguard_bound())
    }

    /// The step orthogonalised against the current memory basis (the raw
    /// step while the basis is empty).
    pub open spec fn reg_candidate(self) -> Problem::Param {
        if self.s_hat_memory.row_count() != 0 {
            self.s0.sub_spec(
                self.s_hat_memory
                    .dot_spec(self.s0)
                    .t_spec()
                    .dot_spec(self.s_hat_memory)
                    .t_spec(),
            )
        } else {
            self.s0
        }
    }

    /// Near-linear dependence: the orthogonalised step has lost almost
    /// all of the raw step's norm.
    pub open spec fn reg_degenerate(self) -> bool {
        self.reg_candidate().norm_spec().lt_spec(self.tau.mul_spec(self.s0.norm_spec()))
    }

    /// Whether this turn wipes the memory: the window is exceeded, or the
    /// new step is degenerate.
    pub open spec fn reg_resets(self) -> bool {
        self.m > self.memory || self.reg_degenerate()
    }

    /// The accumulated-row count after regularization.
    pub open spec fn reg_m(self) -> u64 {
        if self.reg_resets() {
            1u64
        } else {
            self.m
        }
    }

    /// The step this turn records: the raw step after a reset, the
    /// orthogonalised one otherwise.
    pub open spec fn reg_step(self) -> Problem::Param {
        if self.reg_resets() {
            self.s0
        } else {
            self.reg_candidate()
        }
    }

    /// The mixer part-way through regularization: counters and the
    /// normalised-step basis already updated (a fresh row appended to the
    /// possibly wiped basis), the low-rank factors still holding their
    /// pre-append contents.
    pub open spec fn reg_mid(self) -> Self {
        let step = self.reg_step();
        let row = step.div_spec(step.norm_spec());
        let base = if self.reg_resets() {
            Problem::Square::zeros_spec(0)
        } else {
            self.s_hat_memory
        };
        let base_hv1 = if self.reg_resets() {
            Problem::Square::zeros_spec(0)
        } else {
            self.hv1
        };
        let base_hv2 = if self.reg_resets() {
            Problem::Square::zeros_spec(0)
        } else {
            self.hv2
        };
        Type1AndersonMixer {
            m: self.reg_m(),
            s0_hat: step,
            s_hat_memory: if base.row_count() == 0 {
                row.into_2d_spec()
            } else {
                base.stack_spec(row)
            },
            hv1: base_hv1,
            hv2: base_hv2,
            ..self
        }
    }

    /// The Powell mixing parameter: `gamma` is the projection of `H(y0)`
    /// onto the recorded step, and `theta` clips it away from the
    /// ill-conditioned region around one.
    pub open spec fn reg_gamma(self) -> T {
        let mid = self.reg_mid();
        mid.s0_hat
            .t_spec()
            .dot_spec(mid.h_aa_spec(self.y0))
            .div_spec(mid.s0_hat.norm_spec().powi_spec(2i32))
    }

    /// The Powell clipping of [`Type1AndersonMixer::reg_gamma`].
    pub open spec fn reg_theta(self) -> T {
        let gamma = self.reg_gamma();
        if self.theta_bar.le_spec(gamma.abs_spec()) {
            T::one_spec()
        } else {
            T::one_spec().sub_spec(
                gamma.signum_spec().mul_spec(
                    self.theta_bar.div_spec(T::one_spec().sub_spec(gamma)),
                ),
            )
        }
    }

    /// The whole regularization step as a function of the mixer at entry:
    /// the Powell-blended residual difference is recorded and one row is
    /// appended to each low-rank factor.
    pub open spec fn reg_spec(self) -> Self {
        let mid = self.reg_mid();
        let theta = self.reg_theta();
        let y_tilde = self.y0.mul_spec(theta).sub_spec(
            self.g_prev.mul_spec(T::one_spec().sub_spec(theta)),
        );
        let h_y_tilde = mid.h_aa_spec(y_tilde);
        let hvec1 = self.s0.sub_spec(h_y_tilde);
        let hvec2 = mid.h_aa_spec(self.s).div_spec(mid.s0_hat.dot_spec(h_y_tilde));
        Type1AndersonMixer {
            y_tilde: y_tilde,
            hv1: if mid.hv1.row_count() == 0 {
                hvec1.into_2d_spec()
            } else {
                mid.hv1.stack_spec(hvec1)
            },
            hv2: if mid.hv2.row_count() == 0 {
                hvec2.into_2d_spec()
            } else {
                mid.hv2.stack_spec(hvec2)
            },
            ..mid
        }
    }

    /// The memory bound: a well-formed mixer with a positive memory
    /// window never holds more than `memory` accumulated rows in any of
    /// its three memory structures. (A window of zero still admits the
    /// single row that every turn appends right after its reset.)
    pub proof fn memory_within_window(mixer: Self)
        requires
            mixer.inv(),
            mixer.memory >= 1,
        ensures
            mixer.s_hat_memory.row_count() as int <= mixer.memory as int,
            mixer.hv1.row_count() as int <= mixer.memory as int,
            mixer.hv2.row_count() as int <= mixer.memory as int,
    {
    }

    /// Generate a new Anderson mixer with default parameters for
    /// everything but the given dimension, tolerance and budget.
    pub fn new(dimension: usize, tolerance: T, max_iter: u64) -> (r: Self)
        ensures
            r.dim == dimension,
            r.tol == tolerance,
            r.max_iter == max_iter,
            r.regularisation == T::one_spec(),
            r.safeguard_factor == T::pow10_spec(6i32),
            r.beta == T::one_spec(),
            r.memory == 5,
            r.theta_bar == T::pow10_spec(-2i32),
            r.epsilon == T::pow10_spec(-6i32),
            r.tau == T::pow10_spec(-3i32),
            r.iter == 0,
            r.m == 0,
            r.n_anderson == 0,
            r.ubar == T::zero_spec(),
            r.hv1 == Problem::Square::zeros_spec(0),
            r.hv2 == Problem::Square::zeros_spec(0),
            r.s_hat_memory == Problem::Square::zeros_spec(0),
            r.s_hat_memory.row_count() == 0,
            r.hv1.row_count() == 0,
            r.hv2.row_count() == 0,
            r.s == Problem::Param::zeros_spec(dimension),
            r.fx0 == Problem::Param::zeros_spec(dimension),
            r.x0 == Problem::Param::zeros_spec(dimension),
            r.y0 == Problem::Param::zeros_spec(dimension),
            r.g0 == Problem::Param::zeros_spec(dimension),
            r.s0 == Problem::Param::zeros_spec(dimension),
            r.fx1 == Problem::Param::zeros_spec(dimension),
            r.x1 == Problem::Param::zeros_spec(dimension),
            r.g1 == Problem::Param::zeros_spec(dimension),
            r.g_prev == Problem::Param::zeros_spec(dimension),
            r.s0_hat == Problem::Param::zeros_spec(dimension),
            r.y_tilde == Problem::Param::zeros_spec(dimension),
            r.inv(),
    {
        Type1AndersonMixer {
            dim: dimension,
            tol: tolerance,
            regularisation: T::one(),
            safeguard_factor: T::pow10(6),
            iter: 0,
            m: 0,
            max_iter,
            beta: T::one(),
            memory: 5,
            theta_bar: T::pow10(-2),
            epsilon: T::pow10(-6),
            tau: T::pow10(-3),
            hv1: Problem::Square::zeros(0),
            hv2: Problem::Square::zeros(0),
            s: Problem::Param::zeros(dimension),
            fx0: Problem::Param::zeros(dimension),
            x0: Problem::Param::zeros(dimension),
            y0: Problem::Param::zeros(dimension),
            g0: Problem::Param::zeros(dimension),
            s0: Problem::Param::zeros(dimension),
            fx1: Problem::Param::zeros(dimension),
            x1: Problem::Param::zeros(dimension),
            g1: Problem::Param::zeros(dimension),
            g_prev: Problem::Param::zeros(dimension),
            s0_hat: Problem::Param::zeros(dimension),
            s_hat_memory: Problem::Square::zeros(0),
            y_tilde: Problem::Param::zeros(dimension),
            ubar: T::zero(),
            n_anderson: 0,
        }
    }

    /// Factory method to set the regularisation parameter.
    pub fn regularisation(self, regularisation: T) -> (r: Self)
        ensures
            r == (Type1AndersonMixer { regularisation, ..self }),
    {
        Type1AndersonMixer { regularisation, ..self }
    }

    /// Factory method to set the safeguard factor.
    pub fn safeguard_factor(self, safeguard_factor: T) -> (r: Self)
        ensures
            r == (Type1AndersonMixer { safeguard_factor, ..self }),
    {
        Type1AndersonMixer { safeguard_factor, ..self }
    }

    /// Factory method to set the relaxation beta of the fallback step.
    pub fn beta(self, beta: T) -> (r: Self)
        ensures
            r == (Type1AndersonMixer { beta, ..self }),
    {
        Type1AndersonMixer { beta, ..self }
    }

    /// Factory method to set the memory window size; meant for a freshly
    /// built mixer, before any iteration has accumulated memory rows.
    pub fn memory(self, memory: u64) -> (r: Self)
        requires
            memory < u64::MAX,
        ensures
            r == (Type1AndersonMixer { memory, ..self }),
    {
        Type1AndersonMixer { memory, ..self }
    }

    /// Initialise for the first turn: evaluate the problem at the state's
    /// parameter, record the starting residual and its norm as the
    /// safeguard reference, and zero all counters. A failed update aborts
    /// with `UpdateFailed` and leaves the mixer untouched.
    fn init(
        &mut self,
        op: &mut Problem,
        state: &State<Problem>,
    ) -> (r: Result<(), FixedPointError<Problem::Float>>)
        ensures
            r is Err ==> r->Err_0 is UpdateFailed && *final(self) == *old(self),
            r is Ok ==> *final(self) == (Type1AndersonMixer {
                fx0: final(self).fx0,
                x0: state.param,
                g0: state.param.sub_spec(final(self).fx0),
                ubar: state.param.sub_spec(final(self).fx0).norm_spec(),
                n_anderson: 0,
                iter: 0,
                m: 0,
                ..*old(self)
            }),
    {
        self.fx0 = match op.update(&state.get_param()) {
            Ok(x) => x,
            Err(_) => return Err(FixedPointError::UpdateFailed),
        };
        self.x0 = state.get_param();
        self.g0 = self.x0.sub(&self.fx0);
        self.ubar = self.g0.norm();
        self.n_anderson = 0;
        self.iter = 0;
        self.m = 0;
        Ok(())
    }

    /// The implicit inverse-Jacobian action on `input`.
    fn h_aa(&self, input: &Problem::Param) -> (r: Problem::Param)
        ensures
            r == self.h_aa_spec(*input),
    {
        if self.hv1.is_empty() || self.hv2.is_empty() {
            input.fp_clone()
        } else {
            input.add(&self.hv1.t().dot(&self.hv2.dot(input)))
        }
    }

    /// The safeguarding step: accept the Anderson candidate when this is
    /// the first turn or its residual norm stays within the safeguard
    /// bound; otherwise fall back to a damped linear step and re-evaluate
    /// the problem there. Only the iterate slots and the acceptance
    /// counter change; the memory structures are untouched.
    fn safeguard(
        &mut self,
        op: &mut Problem,
    ) -> (r: Result<(), FixedPointError<Problem::Float>>)
        ensures
            r is Ok && old(self).anderson_accept() ==> *final(self) == (Type1AndersonMixer {
                n_anderson: saturating_inc(old(self).n_anderson),
                x0: old(self).x1,
                fx0: old(self).fx1,
                ..*old(self)
            }),
            r is Ok && !old(self).anderson_accept() ==> *final(self) == (Type1AndersonMixer {
                x1: old(self).linear_blend(),
                x0: old(self).linear_blend(),
                fx0: final(self).fx0,
                ..*old(self)
            }),
            r is Err ==> r->Err_0 is UpdateFailed && *final(self) == (Type1AndersonMixer {
                x1: old(self).linear_blend(),
                x0: old(self).linear_blend(),
                ..*old(self)
            }),
    {
        let ubar0 = self.g0.norm();
        let next_count = if self.n_anderson == u64::MAX {
            u64::MAX
        } else {
            self.n_anderson + 1
        };
        let exponent = T::one().neg().sub(&self.epsilon);
        let factor = self
            .ubar
            .mul(&self.safeguard_factor)
            .mul(&T::from_u64(next_count).powf(&exponent));

        if self.iter == 0 || ubar0.le(&factor) {
            self.n_anderson = next_count;
            self.x0 = self.x1.fp_clone();
            self.fx0 = self.fx1.fp_clone();
        } else {
            let relax = T::one().sub(&self.beta);
            self.x1 = self.fx0.mul(&self.beta).add(&self.x0.mul(&relax));
            self.x0 = self.x1.fp_clone();
            self.fx0 = match op.update(&self.x0) {
                Ok(x) => x,
                Err(_) => return Err(FixedPointError::UpdateFailed),
            };
        }
        Ok(())
    }

    /// The Powell-stabilised memory update, exactly as
    /// [`Type1AndersonMixer::reg_spec`] describes it: wipe the memory on
    /// window overflow or a degenerate step, append the normalised step
    /// to the basis, and append one row to each low-rank factor. The row
    /// counts stay equal, never exceed the accumulated count, and never
    /// exceed the capacity of the window.
    fn regularise(&mut self)
        requires
            old(self).hv1.row_count() == old(self).s_hat_memory.row_count(),
            old(self).hv2.row_count() == old(self).s_hat_memory.row_count(),
            old(self).m >= 1,
            old(self).s_hat_memory.row_count() as int <= old(self).m as int - 1,
        ensures
            *final(self) == old(self).reg_spec(),
            final(self).hv1.row_count() == final(self).s_hat_memory.row_count(),
            final(self).hv2.row_count() == final(self).s_hat_memory.row_count(),
            final(self).s_hat_memory.row_count() as int <= final(self).m as int,
            final(self).s_hat_memory.row_count() as int <= final(self).mem_capacity(),
            final(self).m >= 1,
            final(self).m == old(self).reg_m(),
            final(self).s_hat_memory.row_count() as int == (
                if old(self).reg_resets() {
                    1int
                } else {
                    old(self).s_hat_memory.row_count() as int + 1
                }
            ),
            old(self).s_hat_memory.row_count() as int == old(self).m as int - 1
                ==> final(self).s_hat_memory.row_count() as int == final(self).m as int,
    {
        if self.m <= self.memory {
            if !self.s_hat_memory.is_empty() {
                self.s0_hat = self.s0.sub(
                    &(self.s_hat_memory.dot(&self.s0).t().dot(&self.s_hat_memory)).t(),
                );
            } else {
                self.s0_hat = self.s0.fp_clone();
            }
            if self.s0_hat.norm().lt(&self.tau.mul(&self.s0.norm())) {
                self.s0_hat = self.s0.fp_clone();
                self.m = 1;
                self.s_hat_memory = Problem::Square::zeros(0);
                self.hv1 = Problem::Square::zeros(0);
                self.hv2 = Problem::Square::zeros(0);
            }
        } else {
            self.s0_hat = self.s0.fp_clone();
            self.m = 1;
            self.s_hat_memory = Problem::Square::zeros(0);
            self.hv1 = Problem::Square::zeros(0);
            self.hv2 = Problem::Square::zeros(0);
        }

        let norm_s0_hat = self.s0_hat.norm();
        let new_shat_row = self.s0_hat.div(&norm_s0_hat);
        if self.s_hat_memory.is_empty() {
            self.s_hat_memory = new_shat_row.into_2d();
        } else {
            self.s_hat_memory = self.s_hat_memory.stack(&new_shat_row);
        }

        let gamma = self
            .s0_hat
            .t()
            .dot(&self.h_aa(&self.y0))
            .div(&norm_s0_hat.powi(2));

        let theta = if self.theta_bar.le(&gamma.abs()) {
            T::one()
        } else {
            T::one().sub(&gamma.signum().mul(&self.theta_bar.div(&T::one().sub(&gamma))))
        };

        self.y_tilde = self.y0.mul(&theta).sub(&self.g_prev.mul(&T::one().sub(&theta)));

        let h_y_tilde = self.h_aa(&self.y_tilde);
        let hvec1 = self.s0.sub(&h_y_tilde);
        let hvec2 = self.h_aa(&self.s).div(&self.s0_hat.dot(&h_y_tilde));

        if self.hv1.is_empty() {
            self.hv1 = hvec1.into_2d();
        } else {
            self.hv1 = self.hv1.stack(&hvec1);
        }

        if self.hv2.is_empty() {
            self.hv2 = hvec2.into_2d();
        } else {
            self.hv2 = self.hv2.stack(&hvec2);
        }
    }
}

impl<T, Problem> MixerMethods<Problem> for Type1AndersonMixer<T, Problem> where
    Problem: FixedPointProblem<Float = T>,
    Problem::Param: FPFromZeros
        + FPSub<Problem::Param, Problem::Param>
        + FPNorm<Problem::Float>
        + FPMul<Problem::Float, Problem::Param>
        + FPAdd<Problem::Param, Problem::Param>
        + FPDiv<Problem::Float, Problem::Param>
        + FPTranspose<Problem::Param>
        + FPDot<Problem::Square, Problem::Param>
        + FPDot<Problem::Param, Problem::Float>
        + FPInto2D<Problem::Square>
        + FPHoldsNaN,
    Problem::Square: FPFromZeros
        + FPTranspose<Problem::Square>
        + FPDot<Problem::Param, Problem::Param>
        + FPStack<Problem::Param, Problem::Square>,
    T: FPFloat,
{
    /// Well-formedness of the internal memory: the three structures hold
    /// the same number of rows, that number never exceeds the accumulated
    /// count nor the window's capacity, and a mixer that has not run yet
    /// holds no rows. The memory window itself stays below the counter
    /// ceiling so that counters never wrap.
    open spec fn inv(self) -> bool {
        &&& self.hv1.row_count() == self.s_hat_memory.row_count()
        &&& self.hv2.row_count() == self.s_hat_memory.row_count()
        &&& self.s_hat_memory.row_count() as int <= self.m as int
        &&& self.s_hat_memory.row_count() as int <= self.mem_capacity()
        &&& (self.iter == 0 ==> self.s_hat_memory.row_count() == 0)
        &&& self.memory < u64::MAX
    }

    /// The shared tolerance-versus-budget policy over this mixer's own
    /// tolerance and budget.
    open spec fn verdict(self, state: State<Problem>) -> TerminationReason {
        tolerance_verdict(state.cost, self.tol, state.iter, self.max_iter)
    }

    fn name(&self) -> (r: &'static str) {
        "Type-I Anderson Mixing"
    }

    /// One Anderson turn: initialise on the first call, extrapolate
    /// through the inverse-Jacobian action, evaluate the problem at the
    /// candidate, safeguard, update the residual bookkeeping, regularise
    /// the memory, and emit the candidate with its residual norm as cost.
    /// A failed update aborts with `UpdateFailed`; a NaN-carrying
    /// candidate aborts with `NumericalDivergence`. The memory bound of
    /// the invariant holds again on every exit.
    ///
    /// The contract fixes which iterate a successful turn proposes, over
    /// the entry state alone: past the first turn, an accepted step
    /// extrapolates `x1 = x0 - H(g0)` through the entry factors, a
    /// rejected step falls back to the damped blend of `fx0` and `x0`;
    /// the first turn takes the plain fixed-point step and leaves one
    /// accepted Anderson step and one accumulated memory row behind. In
    /// all cases the safeguard leaves `x0` at the emitted candidate, and
    /// an acceptance records the candidate's output in `fx0`.
    fn next_iter(
        &mut self,
        op: &mut Problem,
        state: &State<Problem>,
    ) -> (r: Result<IterData<Problem>, FixedPointError<Problem::Float>>)
        ensures
            r is Ok ==> r->Ok_0.param == Some(final(self).x1),
            r is Ok ==> r->Ok_0.cost == Some(
                final(self).fx1.sub_spec(final(self).x1).norm_spec(),
            ),
            r is Ok ==> final(self).iter == saturating_inc(old(self).iter),
            r is Ok && old(self).iter > 0 && old(self).anderson_accept() ==> final(self).x1
                == old(self).x0.sub_spec(old(self).h_aa_spec(old(self).g0)),
            r is Ok && !old(self).anderson_accept() ==> final(self).x1
                == old(self).linear_blend(),
            r is Ok ==> final(self).x0 == final(self).x1,
            r is Ok && old(self).anderson_accept() ==> final(self).fx0 == final(self).fx1,
            r is Ok && old(self).iter > 0 && old(self).anderson_accept()
                ==> final(self).n_anderson == saturating_inc(old(self).n_anderson),
            r is Ok && !old(self).anderson_accept()
                ==> final(self).n_anderson == old(self).n_anderson,
            r is Ok && old(self).iter == 0
                ==> final(self).m == 1 && final(self).n_anderson == 1,
            r matches Err(e) && e is NumericalDivergence ==> final(self).x1.holds_nan_spec(),
            final(self).s_hat_memory.row_count() as int <= final(self).mem_capacity(),
            final(self).dim == old(self).dim,
            final(self).tol == old(self).tol,
            final(self).max_iter == old(self).max_iter,
            final(self).memory == old(self).memory,
            final(self).beta == old(self).beta,
            final(self).epsilon == old(self).epsilon,
            final(self).tau == old(self).tau,
            final(self).theta_bar == old(self).theta_bar,
            final(self).safeguard_factor == old(self).safeguard_factor,
            final(self).regularisation == old(self).regularisation,
    {
        if self.iter == 0 {
            match self.init(op, state) {
                Ok(()) => (),
                Err(e) => return Err(e),
            }
        }

        self.m = if self.m == u64::MAX {
            u64::MAX
        } else {
            self.m + 1
        };

        if self.iter == 0 {
            self.x1 = self.fx0.fp_clone();
        } else {
            self.x1 = self.x0.sub(&self.h_aa(&self.g0));
        }

        self.s0 = self.x1.sub(&self.x0);
        self.fx1 = match op.update(&self.x1) {
            Ok(x) => x,
            Err(_) => return Err(FixedPointError::UpdateFailed),
        };
        self.g1 = self.x1.sub(&self.fx1);
        self.y0 = self.g1.sub(&self.g0);

        match self.safeguard(op) {
            Ok(()) => (),
            Err(e) => return Err(e),
        }

        self.g_prev = self.g0.fp_clone();
        self.g0 = self.x0.sub(&self.fx0);

        self.regularise();
        let res = self.fx1.sub(&self.x1);
        self.iter = if self.iter == u64::MAX {
            u64::MAX
        } else {
            self.iter + 1
        };

        if self.x1.holds_nan() {
            return Err(FixedPointError::NumericalDivergence);
        }

        Ok(IterData::new().cost(res.norm()).param(self.x1.fp_clone()))
    }

    /// The shared tolerance-versus-budget verdict, judged on the state's
    /// recorded cost and counter; never fails.
    fn terminate(
        &mut self,
        state: &State<Problem>,
    ) -> (r: Result<TerminationReason, FixedPointError<Problem::Float>>)
        ensures
            *final(self) == *old(self),
            r is Ok,
            r->Ok_0 == tolerance_verdict(
                state.cost,
                old(self).tol,
                state.iter,
                old(self).max_iter,
            ),
    {
        let condition = if state.cost.lt(&self.tol) {
            TerminationReason::ToleranceBeaten
        } else if state.iter > self.max_iter {
            TerminationReason::HitMaxIterations
        } else {
            TerminationReason::NotTerminated
        };
        Ok(condition)
    }
}

impl<T, Problem> Default for Type1AndersonMixer<T, Problem> where
    Problem: FixedPointProblem<Float = T>,
    Problem::Param: FPFromZeros
        + FPSub<Problem::Param, Problem::Param>
        + FPNorm<Problem::Float>
        + FPMul<Problem::Float, Problem::Param>
        + FPAdd<Problem::Param, Problem::Param>
        + FPDiv<Problem::Float, Problem::Param>
        + FPTranspose<Problem::Param>
        + FPDot<Problem::Square, Problem::Param>
        + FPDot<Problem::Param, Problem::Float>
        + FPInto2D<Problem::Square>
        + FPHoldsNaN,
    Problem::Square: FPFromZeros
        + FPTranspose<Problem::Square>
        + FPDot<Problem::Param, Problem::Param>
        + FPStack<Problem::Param, Problem::Square>,
    T: FPFloat,
{
    /// The default configuration: dimension ten, a tolerance of one part
    /// in a million, and a budget of a thousand iterations.
    fn default() -> (r: Self)
        ensures
            r.dim == 10,
            r.tol == T::pow10_spec(-6i32),
            r.max_iter == 1000,
            r.inv(),
    {
        Type1AndersonMixer::new(10, T::pow10(-6), 1000)
    }
}

} // verus!
