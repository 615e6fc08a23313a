//! Derivative pricing with verified exact arithmetic.
//!
//! The library prices European-style instruments under a one-factor
//! diffusion model and produces sensitivities (Greeks) alongside the
//! price.  Two complementary techniques are covered: an automatic-
//! differentiation abstraction (`Real`) with forward-mode, second-order
//! and reverse-mode ("tape") implementations, and a finite-difference
//! solver for the backward pricing equation (non-uniform grids,
//! tridiagonal operator assembly, the Thomas algorithm and a log-space
//! coordinate transform).
//!
//! Every quantity is carried by [`fixed::Fixed`], a saturating
//! fixed-point scalar whose arithmetic is specified exactly, so each
//! propagation rule and each solver step is pinned down by its contract.

pub mod fixed;
pub mod trans;
pub mod scalar;
pub mod grad;
pub mod dual;
pub mod solver;
pub mod mesher;
pub mod operators;
pub mod daycount;
pub mod tenor;
pub mod interp;
pub mod rate;
pub mod clock;
pub mod instruments;
pub mod error;
pub mod market;
pub mod evaluator;
pub mod tape;
pub mod hess;
pub mod laws;
pub mod modes;
