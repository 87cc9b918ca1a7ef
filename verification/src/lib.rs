//! Fixed-point iteration engine for self-consistent problems.
//!
//! The crate solves problems of the form "find `x` with `F(x) = x`" for a
//! caller-supplied update map `F`. A [`solver::FixedPointSolver`] drives the
//! loop; interchangeable mixing strategies ([`linear::LinearMixer`] and
//! [`anderson::Type1AndersonMixer`]) propose each iterate and decide
//! termination. All arithmetic is delegated to a numeric capability contract
//! (the `FP*` traits in [`math`]) so that any vector/matrix backend can be
//! plugged in.

pub mod anderson;
pub mod errors;
pub mod linear;
pub mod math;
pub mod solver;
pub mod state;
pub mod traits;

pub use errors::FixedPointError;
