//! The engine driven through a matrix-library backend.

use conflux::anderson::Type1AndersonMixer;
use conflux::errors::FixedPointError;
use conflux::linear::LinearMixer;
use conflux::math::{
    FPAdd, FPClone, FPDiv, FPDot, FPEmpty, FPFloat, FPFromZeros, FPHoldsNaN, FPInto2D, FPMul,
    FPNorm, FPStack, FPSub, FPTranspose,
};
use conflux::solver::FixedPointSolver;
use conflux::traits::FixedPointProblem;
use nalgebra::{DMatrix, DVector};
use rand::RngExt;

#[derive(Clone, Copy, Debug, PartialEq)]
struct Fl(f64);

impl FPFloat for Fl {
    fn lt_spec(self, other: Fl) -> bool {
        self.0 < other.0
    }
    fn le_spec(self, other: Fl) -> bool {
        self.0 <= other.0
    }
    fn one_spec() -> Fl {
        Fl(1.0)
    }
    fn zero_spec() -> Fl {
        Fl(0.0)
    }
    fn infinity_spec() -> Fl {
        Fl(f64::INFINITY)
    }
    fn from_u64_spec(v: u64) -> Fl {
        Fl(v as f64)
    }
    fn pow10_spec(e: i32) -> Fl {
        Fl(10f64.powi(e))
    }
    fn add_spec(self, other: Fl) -> Fl {
        Fl(self.0 + other.0)
    }
    fn sub_spec(self, other: Fl) -> Fl {
        Fl(self.0 - other.0)
    }
    fn mul_spec(self, other: Fl) -> Fl {
        Fl(self.0 * other.0)
    }
    fn div_spec(self, other: Fl) -> Fl {
        Fl(self.0 / other.0)
    }
    fn neg_spec(self) -> Fl {
        Fl(-self.0)
    }
    fn abs_spec(self) -> Fl {
        Fl(self.0.abs())
    }
    fn signum_spec(self) -> Fl {
        Fl(self.0.signum())
    }
    fn powf_spec(self, e: Fl) -> Fl {
        Fl(self.0.powf(e.0))
    }
    fn powi_spec(self, e: i32) -> Fl {
        Fl(self.0.powi(e))
    }
    fn lt_transitive(_: Fl, _: Fl, _: Fl) {}
    fn lt(&self, other: &Fl) -> bool {
        self.0 < other.0
    }
    fn le(&self, other: &Fl) -> bool {
        self.0 <= other.0
    }
    fn one() -> Fl {
        Fl(1.0)
    }
    fn zero() -> Fl {
        Fl(0.0)
    }
    fn infinity() -> Fl {
        Fl(f64::INFINITY)
    }
    fn from_u64(v: u64) -> Fl {
        Fl(v as f64)
    }
    fn pow10(e: i32) -> Fl {
        Fl(10f64.powi(e))
    }
    fn add(&self, other: &Fl) -> Fl {
        Fl(self.0 + other.0)
    }
    fn sub(&self, other: &Fl) -> Fl {
        Fl(self.0 - other.0)
    }
    fn mul(&self, other: &Fl) -> Fl {
        Fl(self.0 * other.0)
    }
    fn div(&self, other: &Fl) -> Fl {
        Fl(self.0 / other.0)
    }
    fn neg(&self) -> Fl {
        Fl(-self.0)
    }
    fn abs(&self) -> Fl {
        Fl(self.0.abs())
    }
    fn signum(&self) -> Fl {
        Fl(self.0.signum())
    }
    fn powf(&self, e: &Fl) -> Fl {
        Fl(self.0.powf(e.0))
    }
    fn powi(&self, e: i32) -> Fl {
        Fl(self.0.powi(e))
    }
}

#[derive(Clone, Debug, PartialEq)]
struct Dv(DVector<f64>);

#[derive(Clone, Debug, PartialEq)]
struct Dm(DMatrix<f64>);

impl FPClone for Dv {
    fn fp_clone(&self) -> Dv {
        self.clone()
    }
}

impl FPAdd<Dv, Dv> for Dv {
    fn add_spec(self, other: Dv) -> Dv {
        self.add(&other)
    }
    fn add(&self, other: &Dv) -> Dv {
        Dv(&self.0 + &other.0)
    }
}

impl FPSub<Dv, Dv> for Dv {
    fn sub_spec(self, other: Dv) -> Dv {
        self.sub(&other)
    }
    fn sub(&self, other: &Dv) -> Dv {
        Dv(&self.0 - &other.0)
    }
}

impl FPMul<Fl, Dv> for Dv {
    fn mul_spec(self, other: Fl) -> Dv {
        self.mul(&other)
    }
    fn mul(&self, other: &Fl) -> Dv {
        Dv(&self.0 * other.0)
    }
}

impl FPDiv<Fl, Dv> for Dv {
    fn div_spec(self, other: Fl) -> Dv {
        self.div(&other)
    }
    fn div(&self, other: &Fl) -> Dv {
        Dv(&self.0 / other.0)
    }
}

impl FPNorm<Fl> for Dv {
    fn norm_spec(self) -> Fl {
        self.norm()
    }
    fn norm(&self) -> Fl {
        Fl(self.0.norm())
    }
}

impl FPHoldsNaN for Dv {
    fn holds_nan_spec(self) -> bool {
        self.holds_nan()
    }
    fn holds_nan(&self) -> bool {
        self.0.iter().any(|x| x.is_nan())
    }
}

impl FPEmpty for Dv {
    fn row_count(self) -> usize {
        self.0.nrows()
    }
    fn is_empty(&self) -> bool {
        self.0.nrows() == 0
    }
}

impl FPFromZeros for Dv {
    fn zeros_spec(x: usize) -> Dv {
        Dv(DVector::zeros(x))
    }
    fn zeros(x: usize) -> Dv {
        Dv(DVector::zeros(x))
    }
}

impl FPTranspose<Dv> for Dv {
    fn t_spec(self) -> Dv {
        self.clone()
    }
    fn t(&self) -> Dv {
        self.clone()
    }
}

impl FPDot<Dv, Fl> for Dv {
    fn dot_spec(self, other: Dv) -> Fl {
        self.dot(&other)
    }
    fn dot(&self, other: &Dv) -> Fl {
        Fl(self.0.dot(&other.0))
    }
}

impl FPDot<Dm, Dv> for Dv {
    fn dot_spec(self, other: Dm) -> Dv {
        self.dot(&other)
    }
    fn dot(&self, other: &Dm) -> Dv {
        Dv(other.0.transpose() * &self.0)
    }
}

impl FPInto2D<Dm> for Dv {
    fn into_2d_spec(self) -> Dm {
        self.into_2d()
    }
    fn into_2d(self) -> Dm {
        let n = self.0.nrows();
        Dm(DMatrix::from_fn(1, n, |_, j| self.0[j]))
    }
}

impl FPEmpty for Dm {
    fn row_count(self) -> usize {
        self.0.nrows()
    }
    fn is_empty(&self) -> bool {
        self.0.nrows() == 0
    }
}

impl FPFromZeros for Dm {
    fn zeros_spec(x: usize) -> Dm {
        Dm(DMatrix::zeros(x, x))
    }
    fn zeros(x: usize) -> Dm {
        Dm(DMatrix::zeros(x, x))
    }
}

impl FPTranspose<Dm> for Dm {
    fn t_spec(self) -> Dm {
        self.t()
    }
    fn t(&self) -> Dm {
        Dm(self.0.transpose())
    }
}

impl FPDot<Dv, Dv> for Dm {
    fn dot_spec(self, other: Dv) -> Dv {
        self.dot(&other)
    }
    fn dot(&self, other: &Dv) -> Dv {
        Dv(&self.0 * &other.0)
    }
}

impl FPStack<Dv, Dm> for Dm {
    fn stack_spec(self, other: Dv) -> Dm {
        self.stack(&other)
    }
    fn stack(&self, other: &Dv) -> Dm {
        let rows = self.0.nrows();
        let cols = self.0.ncols();
        Dm(DMatrix::from_fn(rows + 1, cols, |i, j| {
            if i < rows {
                self.0[(i, j)]
            } else {
                other.0[j]
            }
        }))
    }
}

/// The randomised square-root functional of the integration tests.
struct TestFunctional {
    x: DVector<f64>,
}

impl TestFunctional {
    fn new(dim: usize) -> TestFunctional {
        let mut rng = rand::rng();
        TestFunctional {
            x: DVector::from_iterator(dim, (0..dim).map(|_| rng.random())),
        }
    }
}

impl FixedPointProblem for TestFunctional {
    type Output = Dv;
    type Param = Dv;
    type Float = Fl;
    type Square = Dm;

    fn update(&mut self, values: &Dv) -> Result<Dv, FixedPointError<Fl>> {
        let out = self
            .x
            .iter()
            .zip(values.0.iter())
            .map(|(x, val)| (val + x).sqrt());
        let out = DVector::from_iterator(self.x.len(), out);
        Ok(Dv(out))
    }
}

#[test]
fn nalgebra_test_linear() {
    let dimension: usize = 10;
    let mut cost = TestFunctional::new(dimension);
    let mixer: LinearMixer<Fl> = LinearMixer::new(Fl(0.1), Fl(f64::EPSILON), 1000);

    let init = Dv(DVector::from_element(dimension, 1_f64));
    let mut solver = FixedPointSolver::new(mixer, init);

    let result = solver.run(&mut cost);
    assert!(result.is_ok());
    let result = result.unwrap();
    assert!(result.get_cost().0.abs() <= f64::EPSILON);
}

#[test]
fn test_stable_anderson_nalgebra() {
    let dimension: usize = 10;
    let mut cost = TestFunctional::new(dimension);
    let init = Dv(DVector::from_element(dimension, 1_f64));
    let mixer = Type1AndersonMixer::new(dimension, Fl(f64::EPSILON), 1000);
    let mut solver = FixedPointSolver::new(mixer, init);
    let result = solver.run(&mut cost);
    assert!(result.is_ok());
    let result = result.unwrap();
    assert!(result.get_cost().0.abs() <= f64::EPSILON);
}
