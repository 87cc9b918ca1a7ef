//! The numeric capability contract.
//!
//! The mixing algorithms never touch a concrete vector or matrix
//! representation: every operation they need is an abstract capability,
//! declared here as a small trait. A backend (dense arrays, matrices, plain
//! scalars) implements these traits outside the verified world; each
//! executable method is paired with an uninterpreted spec-level twin, so the
//! contract a backend signs up for is exactly "this operation is a function
//! of its arguments, and structural facts (row counts, NaN flags, clone
//! equality) are reported truthfully". Everything the engine proves about
//! its own logic is relative to that contract.

use vstd::prelude::*;

verus! {

/// Add `X` to `self`, producing `Y`.
pub trait FPAdd<X, Y> {
    /// Spec-level twin of [`FPAdd::add`].
    spec fn add_spec(self, other: X) -> Y;

    /// Add `X` to `self`.
    fn add(&self, other: &X) -> (r: Y)
        ensures
            r == self.add_spec(*other),
    ;
}

/// Subtract `X` from `self`, producing `Y`.
pub trait FPSub<X, Y> {
    /// Spec-level twin of [`FPSub::sub`].
    spec fn sub_spec(self, other: X) -> Y;

    /// Subtract `X` from `self`.
    fn sub(&self, other: &X) -> (r: Y)
        ensures
            r == self.sub_spec(*other),
    ;
}

/// Multiply (pointwise) `self` with `X`, producing `Y`.
pub trait FPMul<X, Y> {
    /// Spec-level twin of [`FPMul::mul`].
    spec fn mul_spec(self, other: X) -> Y;

    /// Multiply (pointwise) `self` with `X`.
    fn mul(&self, other: &X) -> (r: Y)
        ensures
            r == self.mul_spec(*other),
    ;
}

/// Divide `self` by `X`, producing `Y`.
pub trait FPDiv<X, Y> {
    /// Spec-level twin of [`FPDiv::div`].
    spec fn div_spec(self, other: X) -> Y;

    /// Divide `self` by `X`.
    fn div(&self, other: &X) -> (r: Y)
        ensures
            r == self.div_spec(*other),
    ;
}

/// Dot product of `self` with `X`, producing `Y`.
pub trait FPDot<X, Y> {
    /// Spec-level twin of [`FPDot::dot`].
    spec fn dot_spec(self, other: X) -> Y;

    /// Dot product of `self` with `X`.
    fn dot(&self, other: &X) -> (r: Y)
        ensures
            r == self.dot_spec(*other),
    ;
}

/// Euclidean norm of `self`.
pub trait FPNorm<X> {
    /// Spec-level twin of [`FPNorm::norm`].
    spec fn norm_spec(self) -> X;

    /// Euclidean norm of `self`.
    fn norm(&self) -> (r: X)
        ensures
            r == self.norm_spec(),
    ;
}

/// Transpose of `self`.
pub trait FPTranspose<X> {
    /// Spec-level twin of [`FPTranspose::t`].
    spec fn t_spec(self) -> X;

    /// Transpose of `self`.
    fn t(&self) -> (r: X)
        ensures
            r == self.t_spec(),
    ;
}

/// Emptiness test, together with the abstract row count it reports on.
///
/// `row_count` is the backend's own model of how many stacked rows a value
/// holds; a one-dimensional value models its entry count instead. The only
/// promise is that `is_empty` answers whether that count is zero.
pub trait FPEmpty {
    /// Abstract number of stacked rows held by `self`.
    spec fn row_count(self) -> usize;

    /// True exactly when `self` holds no rows.
    fn is_empty(&self) -> (r: bool)
        ensures
            r == (self.row_count() == 0),
    ;
}

/// Stack the row `X` under `self`, producing `Y` with one more row.
pub trait FPStack<X, Y: FPEmpty>: FPEmpty {
    /// Spec-level twin of [`FPStack::stack`].
    spec fn stack_spec(self, other: X) -> Y;

    /// Stack the row `X` under `self`.
    fn stack(&self, other: &X) -> (r: Y)
        ensures
            r == self.stack_spec(*other),
            r.row_count() as int == self.row_count() as int + 1,
    ;
}

/// Promote the one-dimensional `self` into a two-dimensional value holding
/// `self` as its single row.
pub trait FPInto2D<X: FPEmpty> {
    /// Spec-level twin of [`FPInto2D::into_2d`].
    spec fn into_2d_spec(self) -> X;

    /// Promote `self` into a two-dimensional value with a single row.
    fn into_2d(self) -> (r: X)
        ensures
            r == self.into_2d_spec(),
            r.row_count() == 1,
    ;
}

/// Identity matrix of a given dimension.
pub trait FPEye: Sized {
    /// Spec-level twin of [`FPEye::eye`].
    spec fn eye_spec(x: usize) -> Self;

    /// Create an identity matrix of dimension `x`.
    fn eye(x: usize) -> (r: Self)
        ensures
            r == Self::eye_spec(x),
    ;
}

/// The zero value of a scalar type.
pub trait FPZeros: Sized {
    /// Spec-level twin of [`FPZeros::zeros`].
    spec fn zeros_spec() -> Self;

    /// Create the zero value.
    fn zeros() -> (r: Self)
        ensures
            r == Self::zeros_spec(),
    ;
}

/// A value of zeros with a given dimension.
pub trait FPFromZeros: FPEmpty + Sized {
    /// Spec-level twin of [`FPFromZeros::zeros`].
    spec fn zeros_spec(x: usize) -> Self;

    /// Create a value of zeros with dimension `x` (a two-dimensional
    /// backend produces `x` rows, so `zeros(0)` is the empty memory).
    fn zeros(x: usize) -> (r: Self)
        ensures
            r == Self::zeros_spec(x),
            r.row_count() == x,
    ;
}

/// A value of zeros with the dimensions of `self`.
pub trait FPZerosLike: Sized {
    /// Spec-level twin of [`FPZerosLike::zeros_like`].
    spec fn zeros_like_spec(self) -> Self;

    /// Create a value of zeros shaped like `self`.
    fn zeros_like(&self) -> (r: Self)
        ensures
            r == self.zeros_like_spec(),
    ;
}

/// Divergence detection: whether a value holds entries that have gone
/// numerically bad. Every backend reports at least NaN entries; one whose
/// notion of divergence is wider may report infinities too.
pub trait FPHoldsNaN {
    /// Spec-level twin of [`FPHoldsNaN::holds_nan`].
    spec fn holds_nan_spec(self) -> bool;

    /// True exactly when `self` holds at least one NaN entry.
    fn holds_nan(&self) -> (r: bool)
        ensures
            r == self.holds_nan_spec(),
    ;
}

/// Explicit duplication of a value.
///
/// The engine keeps copies of parameter vectors (previous iterate, best
/// iterate, ...); this capability promises that a duplicate is equal to the
/// original, which a plain generic `Clone` bound cannot promise.
pub trait FPClone: Sized {
    /// Duplicate `self`.
    fn fp_clone(&self) -> (r: Self)
        ensures
            r == *self,
    ;
}

/// The scalar capability contract.
///
/// A floating-point scalar backend provides ordering, the distinguished
/// constants the engine needs, and arithmetic. Each executable method is
/// again paired with a spec-level twin; only the comparisons carry a
/// structural promise (they answer exactly their spec-level relation).
/// `lt_transitive` records the one ordering law the engine relies on: the
/// strict order is transitive, which holds of IEEE floats since NaN is
/// never below anything.
pub trait FPFloat: Sized + Copy {
    /// Abstract strict order (`self < other`).
    spec fn lt_spec(self, other: Self) -> bool;

    /// Abstract non-strict order (`self <= other`).
    spec fn le_spec(self, other: Self) -> bool;

    /// Spec-level twin of [`FPFloat::one`].
    spec fn one_spec() -> Self;

    /// Spec-level twin of [`FPFloat::zero`].
    spec fn zero_spec() -> Self;

    /// Spec-level twin of [`FPFloat::infinity`].
    spec fn infinity_spec() -> Self;

    /// Spec-level twin of [`FPFloat::from_u64`].
    spec fn from_u64_spec(v: u64) -> Self;

    /// Spec-level twin of [`FPFloat::pow10`].
    spec fn pow10_spec(e: i32) -> Self;

    /// Spec-level twin of [`FPFloat::add`].
    spec fn add_spec(self, other: Self) -> Self;

    /// Spec-level twin of [`FPFloat::sub`].
    spec fn sub_spec(self, other: Self) -> Self;

    /// Spec-level twin of [`FPFloat::mul`].
    spec fn mul_spec(self, other: Self) -> Self;

    /// Spec-level twin of [`FPFloat::div`].
    spec fn div_spec(self, other: Self) -> Self;

    /// Spec-level twin of [`FPFloat::neg`].
    spec fn neg_spec(self) -> Self;

    /// Spec-level twin of [`FPFloat::abs`].
    spec fn abs_spec(self) -> Self;

    /// Spec-level twin of [`FPFloat::signum`].
    spec fn signum_spec(self) -> Self;

    /// Spec-level twin of [`FPFloat::powf`].
    spec fn powf_spec(self, e: Self) -> Self;

    /// Spec-level twin of [`FPFloat::powi`].
    spec fn powi_spec(self, e: i32) -> Self;

    /// Strict comparison: `self < other`.
    fn lt(&self, other: &Self) -> (r: bool)
        ensures
            r == self.lt_spec(*other),
    ;

    /// Non-strict comparison: `self <= other`.
    fn le(&self, other: &Self) -> (r: bool)
        ensures
            r == self.le_spec(*other),
    ;

    /// The multiplicative unit.
    fn one() -> (r: Self)
        ensures
            r == Self::one_spec(),
    ;

    /// The additive unit.
    fn zero() -> (r: Self)
        ensures
            r == Self::zero_spec(),
    ;

    /// Positive infinity.
    fn infinity() -> (r: Self)
        ensures
            r == Self::infinity_spec(),
    ;

    /// Conversion from an unsigned counter.
    fn from_u64(v: u64) -> (r: Self)
        ensures
            r == Self::from_u64_spec(v),
    ;

    /// Ten raised to the power `e`; the engine uses this for its default
    /// tolerances and regularization constants.
    fn pow10(e: i32) -> (r: Self)
        ensures
            r == Self::pow10_spec(e),
    ;

    /// Scalar addition.
    fn add(&self, other: &Self) -> (r: Self)
        ensures
            r == self.add_spec(*other),
    ;

    /// Scalar subtraction.
    fn sub(&self, other: &Self) -> (r: Self)
        ensures
            r == self.sub_spec(*other),
    ;

    /// Scalar multiplication.
    fn mul(&self, other: &Self) -> (r: Self)
        ensures
            r == self.mul_spec(*other),
    ;

    /// Scalar division.
    fn div(&self, other: &Self) -> (r: Self)
        ensures
            r == self.div_spec(*other),
    ;

    /// Negation.
    fn neg(&self) -> (r: Self)
        ensures
            r == self.neg_spec(),
    ;

    /// Absolute value.
    fn abs(&self) -> (r: Self)
        ensures
            r == self.abs_spec(),
    ;

    /// Sign of `self` (`1`, `-1`, or NaN).
    fn signum(&self) -> (r: Self)
        ensures
            r == self.signum_spec(),
    ;

    /// `self` raised to the scalar power `e`.
    fn powf(&self, e: &Self) -> (r: Self)
        ensures
            r == self.powf_spec(*e),
    ;

    /// `self` raised to the integer power `e`.
    fn powi(&self, e: i32) -> (r: Self)
        ensures
            r == self.powi_spec(e),
    ;

    /// The strict order is transitive. IEEE comparison satisfies this: a
    /// NaN is never strictly below any value, and on non-NaN values `<` is
    /// the usual total order.
    proof fn lt_transitive(a: Self, b: Self, c: Self)
        requires
            a.lt_spec(b),
            b.lt_spec(c),
        ensures
            a.lt_spec(c),
    ;
}

/// Non-strict comparison of two costs: equal, or strictly below by the
/// scalar backend's order.
pub open spec fn cost_le<F: FPFloat>(a: F, b: F) -> bool {
    a == b || a.lt_spec(b)
}

/// `cost_le` chains: it is reflexive by construction and transitive by the
/// scalar backend's ordering law.
pub proof fn cost_le_transitive<F: FPFloat>(a: F, b: F, c: F)
    requires
        cost_le(a, b),
        cost_le(b, c),
    ensures
        cost_le(a, c),
{
    if a.lt_spec(b) && b.lt_spec(c) {
        F::lt_transitive(a, b, c);
    }
}

} // verus!
