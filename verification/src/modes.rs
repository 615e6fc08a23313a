//! Compile-time selection of the numeric carrier an evaluation runs
//! in, and of the result type mixed inputs promote to.
//!
//! A pricing call may seed sensitivity in the spot, the curve, the
//! surface, or none of them; these markers let a host state, at the
//! type level, which carriers may meet in one evaluation and what
//! comes out.

use vstd::prelude::*;
use crate::fixed::Fixed;
use crate::grad::Gradient;
use crate::hess::Hessian;

verus! {

/// Plain evaluation: values only, no derivative tracking.
#[derive(Clone, Copy, Debug)]
pub struct PureMode;

/// First-order forward-mode evaluation.
#[derive(Clone, Copy, Debug)]
pub struct DualVecMode;

/// Second-order forward-mode evaluation.
#[derive(Clone, Copy, Debug)]
pub struct Dual2VecMode;

/// The carriers admitted in evaluation mode `M`.
pub trait InMode<M> {

}

impl InMode<PureMode> for Fixed {

}

impl InMode<DualVecMode> for Fixed {

}

impl InMode<Dual2VecMode> for Fixed {

}

impl InMode<DualVecMode> for Gradient {

}

impl InMode<Dual2VecMode> for Hessian {

}

/// What a spot carrier `Self`, a curve carrier `RC` and a surface
/// carrier `VS` jointly promote to.
pub trait EvaluationResolver<RC, VS> {
    /// The promoted carrier.
    type Output;
}

impl EvaluationResolver<Fixed, Fixed> for Fixed {
    type Output = Fixed;
}

impl EvaluationResolver<Fixed, Fixed> for Gradient {
    type Output = Gradient;
}

impl EvaluationResolver<Gradient, Fixed> for Gradient {
    type Output = Gradient;
}

impl EvaluationResolver<Fixed, Gradient> for Gradient {
    type Output = Gradient;
}

impl EvaluationResolver<Gradient, Gradient> for Gradient {
    type Output = Gradient;
}

impl EvaluationResolver<Gradient, Fixed> for Fixed {
    type Output = Gradient;
}

impl EvaluationResolver<Fixed, Gradient> for Fixed {
    type Output = Gradient;
}

impl EvaluationResolver<Gradient, Gradient> for Fixed {
    type Output = Gradient;
}

impl EvaluationResolver<Fixed, Fixed> for Hessian {
    type Output = Hessian;
}

impl EvaluationResolver<Hessian, Fixed> for Hessian {
    type Output = Hessian;
}

impl EvaluationResolver<Fixed, Hessian> for Hessian {
    type Output = Hessian;
}

impl EvaluationResolver<Hessian, Hessian> for Hessian {
    type Output = Hessian;
}

impl EvaluationResolver<Hessian, Fixed> for Fixed {
    type Output = Hessian;
}

impl EvaluationResolver<Fixed, Hessian> for Fixed {
    type Output = Hessian;
}

impl EvaluationResolver<Hessian, Hessian> for Fixed {
    type Output = Hessian;
}

/// The resolved result carrier, re-exported as an associated type
/// every resolver combination offers.
pub trait EvaluationResult<RC, VS>: EvaluationResolver<RC, VS> {
    /// The promoted carrier.
    type Out;
}

impl<S, RC, VS> EvaluationResult<RC, VS> for S where S: EvaluationResolver<RC, VS> {
    type Out = <S as EvaluationResolver<RC, VS>>::Output;
}

} // verus!
