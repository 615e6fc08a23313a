//! Shared error taxonomy for curve and surface construction.

use vstd::prelude::*;
use crate::interp::InterpolationError;

verus! {

/// Why a curve or surface could not be built.
#[derive(Clone, Copy, Debug, PartialEq, Eq, Structural)]
pub enum CurveError {
    /// Tenors and quotes differ in length.
    LengthMismatch,
    /// The underlying interpolation table was rejected.
    Interpolation(InterpolationError),
}

/// The library-wide error union.
#[derive(Clone, Copy, Debug, PartialEq, Eq, Structural)]
pub enum QoxError {
    /// A curve could not be built.
    Curve(CurveError),
    /// An interpolation table could not be built.
    Interpolation(InterpolationError),
}

impl QoxError {
    /// Wrap a curve error.
    pub fn from_curve(e: CurveError) -> (r: QoxError)
        ensures
            r == QoxError::Curve(e),
    {
        QoxError::Curve(e)
    }

    /// Wrap an interpolation error.
    pub fn from_interpolation(e: InterpolationError) -> (r: QoxError)
        ensures
            r == QoxError::Interpolation(e),
    {
        QoxError::Interpolation(e)
    }
}

} // verus!
