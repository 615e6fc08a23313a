//! The capability contract satisfied by every pricing scalar.
//!
//! A `Real` carries a primal value (a [`Fixed`] mantissa) and may
//! carry derivative information alongside it.  The trait pins down
//! exactly how the primal value moves through each operation, so one
//! pricing algorithm runs unmodified over plain numbers or over any
//! automatic-differentiation variant and provably computes the same
//! price; how each variant propagates its derivatives is stated by
//! that variant's own contracts.

use vstd::prelude::*;
use crate::fixed::{Fixed, fx_add, fx_sub, fx_mul, fx_div, fx_max};
use crate::trans::{fx_exp, fx_ln, fx_sqrt, fx_powi, fx_powf, fx_norm_cdf};

verus! {

/// Arithmetic, transcendental functions, the normal CDF, comparison
/// and lifting from a plain value: the seam over which the pricing
/// algorithms are generic.
pub trait Real: Sized + Clone {
    /// The primal mantissa of the value.
    spec fn val_m(&self) -> int;

    /// Structural well-formedness of the carrier.
    spec fn wf(&self) -> bool;

    /// Lift a plain value into a constant (no derivative content).
    fn lift(v: Fixed) -> (r: Self)
        ensures
            r.wf(),
            r.val_m() == v.m(),
    ;

    /// An identical copy (automatic-differentiation content kept).
    fn dup(&self) -> (r: Self)
        requires
            self.wf(),
        ensures
            r.wf(),
            r.val_m() == self.val_m(),
    ;

    /// Read the primal value back out.
    fn to_fixed(&self) -> (r: Fixed)
        requires
            self.wf(),
        ensures
            r.m() == self.val_m(),
    ;

    /// Addition.
    fn add(&self, o: &Self) -> (r: Self)
        requires
            self.wf(),
            o.wf(),
        ensures
            r.wf(),
            r.val_m() == fx_add(self.val_m(), o.val_m()),
    ;

    /// Subtraction.
    fn sub(&self, o: &Self) -> (r: Self)
        requires
            self.wf(),
            o.wf(),
        ensures
            r.wf(),
            r.val_m() == fx_sub(self.val_m(), o.val_m()),
    ;

    /// Multiplication.
    fn mul(&self, o: &Self) -> (r: Self)
        requires
            self.wf(),
            o.wf(),
        ensures
            r.wf(),
            r.val_m() == fx_mul(self.val_m(), o.val_m()),
    ;

    /// Division.
    fn div(&self, o: &Self) -> (r: Self)
        requires
            self.wf(),
            o.wf(),
        ensures
            r.wf(),
            r.val_m() == fx_div(self.val_m(), o.val_m()),
    ;

    /// Negation.
    fn neg(&self) -> (r: Self)
        requires
            self.wf(),
        ensures
            r.wf(),
            r.val_m() == -self.val_m(),
    ;

    /// The larger operand, decided by the primal values.
    fn max(&self, o: &Self) -> (r: Self)
        requires
            self.wf(),
            o.wf(),
        ensures
            r.wf(),
            r.val_m() == fx_max(self.val_m(), o.val_m()),
    ;

    /// The exponential.
    fn exp(&self) -> (r: Self)
        requires
            self.wf(),
        ensures
            r.wf(),
            r.val_m() == fx_exp(self.val_m()),
    ;

    /// The logarithm.
    fn ln(&self) -> (r: Self)
        requires
            self.wf(),
        ensures
            r.wf(),
            r.val_m() == fx_ln(self.val_m()),
    ;

    /// The square root.
    fn sqrt(&self) -> (r: Self)
        requires
            self.wf(),
        ensures
            r.wf(),
            r.val_m() == fx_sqrt(self.val_m()),
    ;

    /// An integer power.
    fn powi(&self, n: i32) -> (r: Self)
        requires
            self.wf(),
        ensures
            r.wf(),
            r.val_m() == fx_powi(self.val_m(), n as int),
    ;

    /// A real power, as `exp(n * ln x)`.
    fn powf(&self, n: &Self) -> (r: Self)
        requires
            self.wf(),
            n.wf(),
        ensures
            r.wf(),
            r.val_m() == fx_powf(self.val_m(), n.val_m()),
    ;

    /// The standard normal cumulative distribution function.
    fn norm_cdf(&self) -> (r: Self)
        requires
            self.wf(),
        ensures
            r.wf(),
            r.val_m() == fx_norm_cdf(self.val_m()),
    ;
}

impl Real for Fixed {
    open spec fn val_m(&self) -> int {
        self.m()
    }

    open spec fn wf(&self) -> bool {
        true
    }

    fn lift(v: Fixed) -> (r: Fixed) {
        v
    }

    fn dup(&self) -> (r: Fixed) {
        *self
    }

    fn to_fixed(&self) -> (r: Fixed) {
        *self
    }

    fn add(&self, o: &Fixed) -> (r: Fixed) {
        Fixed::add(self, o)
    }

    fn sub(&self, o: &Fixed) -> (r: Fixed) {
        Fixed::sub(self, o)
    }

    fn mul(&self, o: &Fixed) -> (r: Fixed) {
        Fixed::mul(self, o)
    }

    fn div(&self, o: &Fixed) -> (r: Fixed) {
        Fixed::div(self, o)
    }

    fn neg(&self) -> (r: Fixed) {
        Fixed::neg(self)
    }

    fn max(&self, o: &Fixed) -> (r: Fixed) {
        Fixed::max(self, o)
    }

    fn exp(&self) -> (r: Fixed) {
        Fixed::exp(self)
    }

    fn ln(&self) -> (r: Fixed) {
        Fixed::ln(self)
    }

    fn sqrt(&self) -> (r: Fixed) {
        Fixed::sqrt(self)
    }

    fn powi(&self, n: i32) -> (r: Fixed) {
        Fixed::powi(self, n as i64)
    }

    fn powf(&self, n: &Fixed) -> (r: Fixed) {
        Fixed::powf(self, n)
    }

    fn norm_cdf(&self) -> (r: Fixed) {
        Fixed::norm_cdf(self)
    }
}

/// The primal mantissas of a sequence of scalars.
pub open spec fn vals<T: Real>(s: Seq<T>) -> Seq<int> {
    Seq::new(s.len(), |i: int| s[i].val_m())
}

/// Every element of the sequence is well-formed.
pub open spec fn wf_seq<T: Real>(s: Seq<T>) -> bool {
    forall|i: int| 0 <= i < s.len() ==> (#[trigger] s[i]).wf()
}

} // verus!
