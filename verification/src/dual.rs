//! Forward-mode automatic differentiation in a single variable.
//!
//! A [`Dual`] carries a value and one derivative; it is the scalar
//! special case of the vector-valued first-order carrier, kept for
//! callers that differentiate along a single direction.

use vstd::prelude::*;
use crate::fixed::{Fixed, fx_add, fx_sub, fx_mul, fx_div, fx_clip, SCALE};
use crate::trans::{fx_exp, fx_ln, fx_sqrt, fx_powi, fx_powf, fx_norm_cdf, fx_norm_pdf};

verus! {

/// A value `f(x)` with its derivative `f'(x)`.
#[derive(Clone, Copy, Debug, PartialEq, Eq, Structural)]
pub struct Dual {
    /// The value.
    pub val: Fixed,
    /// The derivative.
    pub der: Fixed,
}

impl Dual {
    /// Build from a value and a derivative.
    pub fn new(val: Fixed, der: Fixed) -> (r: Dual)
        ensures
            r == (Dual { val, der }),
    {
        Dual { val, der }
    }

    /// Seed a variable for differentiation (`dx/dx = 1`).
    pub fn var(val: Fixed) -> (r: Dual)
        ensures
            r.val == val,
            r.der.m() == SCALE as int,
    {
        Dual { val, der: Fixed::one() }
    }

    /// A constant (`dc/dx = 0`).
    pub fn constant(val: Fixed) -> (r: Dual)
        ensures
            r.val == val,
            r.der.m() == 0,
    {
        Dual { val, der: Fixed::zero() }
    }

    /// Sum.
    pub fn add(&self, o: &Dual) -> (r: Dual)
        ensures
            r.val.m() == fx_add(self.val.m(), o.val.m()),
            r.der.m() == fx_add(self.der.m(), o.der.m()),
    {
        Dual::new(self.val.add(&o.val), self.der.add(&o.der))
    }

    /// Difference.
    pub fn sub(&self, o: &Dual) -> (r: Dual)
        ensures
            r.val.m() == fx_sub(self.val.m(), o.val.m()),
            r.der.m() == fx_sub(self.der.m(), o.der.m()),
    {
        Dual::new(self.val.sub(&o.val), self.der.sub(&o.der))
    }

    /// Product rule: `(uv)' = u'v + uv'`.
    pub fn mul(&self, o: &Dual) -> (r: Dual)
        ensures
            r.val.m() == fx_mul(self.val.m(), o.val.m()),
            r.der.m() == fx_add(
                fx_mul(self.der.m(), o.val.m()),
                fx_mul(self.val.m(), o.der.m()),
            ),
    {
        Dual::new(
            self.val.mul(&o.val),
            self.der.mul(&o.val).add(&self.val.mul(&o.der)),
        )
    }

    /// Quotient rule: `(u/v)' = (u'v - uv') / v^2`.
    pub fn div(&self, o: &Dual) -> (r: Dual)
        ensures
            r.val.m() == fx_div(self.val.m(), o.val.m()),
            r.der.m() == fx_div(
                fx_sub(fx_mul(self.der.m(), o.val.m()), fx_mul(self.val.m(), o.der.m())),
                fx_mul(o.val.m(), o.val.m()),
            ),
    {
        let v2: Fixed = o.val.mul(&o.val);
        Dual::new(
            self.val.div(&o.val),
            self.der.mul(&o.val).sub(&self.val.mul(&o.der)).div(&v2),
        )
    }

    /// Negation.
    pub fn neg(&self) -> (r: Dual)
        ensures
            r.val.m() == -self.val.m(),
            r.der.m() == -self.der.m(),
    {
        Dual::new(self.val.neg(), self.der.neg())
    }

    /// The operand with the larger value, kept whole.
    pub fn max(&self, o: &Dual) -> (r: Dual)
        ensures
            r == if self.val.m() >= o.val.m() {
                *self
            } else {
                *o
            },
    {
        if o.val.lt(&self.val) || self.val.eq_val(&o.val) {
            *self
        } else {
            *o
        }
    }

    /// Chain rule for the exponential.
    pub fn exp(&self) -> (r: Dual)
        ensures
            r.val.m() == fx_exp(self.val.m()),
            r.der.m() == fx_mul(self.der.m(), fx_exp(self.val.m())),
    {
        let res: Fixed = self.val.exp();
        Dual::new(res, self.der.mul(&res))
    }

    /// Chain rule for the logarithm.
    pub fn ln(&self) -> (r: Dual)
        ensures
            r.val.m() == fx_ln(self.val.m()),
            r.der.m() == fx_div(self.der.m(), self.val.m()),
    {
        Dual::new(self.val.ln(), self.der.div(&self.val))
    }

    /// Chain rule for the square root.
    pub fn sqrt(&self) -> (r: Dual)
        ensures
            r.val.m() == fx_sqrt(self.val.m()),
            r.der.m() == fx_div(
                self.der.m(),
                fx_mul(fx_clip(2 * (SCALE as int)), fx_sqrt(self.val.m())),
            ),
    {
        let res: Fixed = self.val.sqrt();
        Dual::new(res, self.der.div(&Fixed::from_int(2).mul(&res)))
    }

    /// Chain rule for an integer power.
    pub fn powi(&self, n: i32) -> (r: Dual)
        ensures
            r.val.m() == fx_powi(self.val.m(), n as int),
            r.der.m() == fx_mul(
                fx_mul(fx_clip((n as int) * (SCALE as int)), fx_powi(self.val.m(), n as int - 1)),
                self.der.m(),
            ),
    {
        let val: Fixed = self.val.powi(n as i64);
        let der: Fixed = Fixed::from_int(n as i64).mul(&self.val.powi(n as i64 - 1)).mul(
            &self.der,
        );
        Dual::new(val, der)
    }

    /// Generalized power rule:
    /// `(f^g)' = f^g (g' ln f + g f' / f)`.
    pub fn powf(&self, n: &Dual) -> (r: Dual)
        ensures
            r.val.m() == fx_powf(self.val.m(), n.val.m()),
            r.der.m() == fx_mul(
                fx_powf(self.val.m(), n.val.m()),
                fx_add(
                    fx_mul(n.der.m(), fx_ln(self.val.m())),
                    fx_div(fx_mul(n.val.m(), self.der.m()), self.val.m()),
                ),
            ),
    {
        let val: Fixed = self.val.powf(&n.val);
        let inner: Fixed = n.der.mul(&self.val.ln()).add(&n.val.mul(&self.der).div(&self.val));
        Dual::new(val, val.mul(&inner))
    }

    /// Chain rule for the normal CDF: the derivative picks up the
    /// normal density at the value.
    pub fn norm_cdf(&self) -> (r: Dual)
        ensures
            r.val.m() == fx_norm_cdf(self.val.m()),
            r.der.m() == fx_mul(self.der.m(), fx_norm_pdf(self.val.m())),
    {
        Dual::new(self.val.norm_cdf(), self.der.mul(&self.val.norm_pdf()))
    }
}

} // verus!
