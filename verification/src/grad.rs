//! Forward-mode first-order automatic differentiation.
//!
//! A [`Gradient`] carries a primal value and one first partial
//! derivative per independent input.  Every operation propagates the
//! derivatives analytically; each contract states the propagated
//! component exactly, through the virtual component accessor `g`,
//! which reads missing trailing components as zero so that constants
//! need not carry a derivative vector at all.

use vstd::prelude::*;
use crate::fixed::{Fixed, fx_add, fx_sub, fx_mul, fx_div, fx_max, fx_clip, lemma_fx_zero, SCALE};
use crate::trans::{fx_exp, fx_ln, fx_sqrt, fx_powi, fx_powf, fx_norm_cdf, fx_norm_pdf};
use crate::scalar::Real;

verus! {

broadcast use crate::fixed::lemma_fx_zero;

/// A value together with its vector of first partial derivatives.
#[derive(Clone, Debug)]
pub struct Gradient {
    /// The primal value.
    pub val: Fixed,
    /// First partial derivatives, one per tracked input.
    pub grad: Vec<Fixed>,
}

impl Gradient {
    /// Virtual derivative component `i`: stored entries, zero beyond.
    pub open spec fn g(&self, i: int) -> int {
        if 0 <= i < self.grad.len() {
            self.grad[i].m()
        } else {
            0
        }
    }

    /// A constant: derivative zero with respect to every input.
    pub fn constant(val: Fixed) -> (r: Gradient)
        ensures
            r.val.m() == val.m(),
            forall|i: int| #[trigger] r.g(i) == 0,
    {
        Gradient { val, grad: Vec::new() }
    }

    /// The `index`-th of `n` independent inputs: derivative one with
    /// respect to itself, zero with respect to the others.
    pub fn var(val: Fixed, index: usize, n: usize) -> (r: Gradient)
        ensures
            r.val.m() == val.m(),
            r.grad.len() == n,
            forall|i: int| #[trigger] r.g(i) == if i == index && index < n { SCALE as int } else { 0 },
    {
        let mut grad: Vec<Fixed> = Vec::new();
        let mut i: usize = 0;
        while i < n
            invariant
                0 <= i <= n,
                grad.len() == i,
                forall|j: int| 0 <= j < i ==> grad[j].m() == if j == index { SCALE as int } else { 0 },
            decreases n - i,
        {
            if i == index {
                grad.push(Fixed::one());
            } else {
                grad.push(Fixed::zero());
            }
            i = i + 1;
        }
        Gradient { val, grad }
    }

    /// Pad both operands' lengths: the combined derivative count.
    pub open spec fn blen(&self, o: &Gradient) -> int {
        if self.grad.len() >= o.grad.len() {
            self.grad.len() as int
        } else {
            o.grad.len() as int
        }
    }

    /// Componentwise sum.
    pub fn add(&self, o: &Gradient) -> (r: Gradient)
        ensures
            r.val.m() == fx_add(self.val.m(), o.val.m()),
            r.grad.len() == self.blen(o),
            forall|i: int| #[trigger] r.g(i) == fx_add(self.g(i), o.g(i)),
    {
        let la: usize = self.grad.len();
        let lb: usize = o.grad.len();
        let n: usize = if la >= lb { la } else { lb };
        let mut grad: Vec<Fixed> = Vec::new();
        let mut i: usize = 0;
        while i < n
            invariant
                0 <= i <= n,
                n == self.blen(o),
                grad.len() == i,
                forall|j: int| 0 <= j < i ==> grad[j].m() == fx_add(self.g(j), o.g(j)),
            decreases n - i,
        {
            let a: Fixed = if i < self.grad.len() { self.grad[i] } else { Fixed::zero() };
            let b: Fixed = if i < o.grad.len() { o.grad[i] } else { Fixed::zero() };
            grad.push(a.add(&b));
            i = i + 1;
        }
        Gradient { val: self.val.add(&o.val), grad }
    }

    /// Componentwise difference.
    pub fn sub(&self, o: &Gradient) -> (r: Gradient)
        ensures
            r.val.m() == fx_sub(self.val.m(), o.val.m()),
            r.grad.len() == self.blen(o),
            forall|i: int| #[trigger] r.g(i) == fx_sub(self.g(i), o.g(i)),
    {
        let la: usize = self.grad.len();
        let lb: usize = o.grad.len();
        let n: usize = if la >= lb { la } else { lb };
        let mut grad: Vec<Fixed> = Vec::new();
        let mut i: usize = 0;
        while i < n
            invariant
                0 <= i <= n,
                n == self.blen(o),
                grad.len() == i,
                forall|j: int| 0 <= j < i ==> grad[j].m() == fx_sub(self.g(j), o.g(j)),
            decreases n - i,
        {
            let a: Fixed = if i < self.grad.len() { self.grad[i] } else { Fixed::zero() };
            let b: Fixed = if i < o.grad.len() { o.grad[i] } else { Fixed::zero() };
            grad.push(a.sub(&b));
            i = i + 1;
        }
        Gradient { val: self.val.sub(&o.val), grad }
    }

    /// Product rule: `(uv)' = u'v + uv'`, per component.
    pub fn mul(&self, o: &Gradient) -> (r: Gradient)
        ensures
            r.val.m() == fx_mul(self.val.m(), o.val.m()),
            r.grad.len() == self.blen(o),
            forall|i: int| #[trigger] r.g(i) == fx_add(
                fx_mul(self.g(i), o.val.m()),
                fx_mul(self.val.m(), o.g(i)),
            ),
    {
        let la: usize = self.grad.len();
        let lb: usize = o.grad.len();
        let n: usize = if la >= lb { la } else { lb };
        let mut grad: Vec<Fixed> = Vec::new();
        let mut i: usize = 0;
        while i < n
            invariant
                0 <= i <= n,
                n == self.blen(o),
                grad.len() == i,
                forall|j: int| 0 <= j < i ==> grad[j].m() == fx_add(
                    fx_mul(self.g(j), o.val.m()),
                    fx_mul(self.val.m(), o.g(j)),
                ),
            decreases n - i,
        {
            let a: Fixed = if i < self.grad.len() { self.grad[i] } else { Fixed::zero() };
            let b: Fixed = if i < o.grad.len() { o.grad[i] } else { Fixed::zero() };
            grad.push(a.mul(&o.val).add(&self.val.mul(&b)));
            i = i + 1;
        }
        let result: Gradient = Gradient { val: self.val.mul(&o.val), grad };
        proof {
            assert forall|i: int|
                #[trigger] result.g(i) == fx_add(
                    fx_mul(self.g(i), o.val.m()),
                    fx_mul(self.val.m(), o.g(i)),
                ) by {
                if !(0 <= i < result.grad.len()) {
                    lemma_fx_zero(o.val.m());
                    lemma_fx_zero(self.val.m());
                }
            }
        }
        result
    }

    /// Quotient rule: `(u/v)' = (u'v - uv') / v^2`, per component.
    pub fn div(&self, o: &Gradient) -> (r: Gradient)
        ensures
            r.val.m() == fx_div(self.val.m(), o.val.m()),
            r.grad.len() == self.blen(o),
            forall|i: int| #[trigger] r.g(i) == fx_div(
                fx_sub(fx_mul(self.g(i), o.val.m()), fx_mul(self.val.m(), o.g(i))),
                fx_mul(o.val.m(), o.val.m()),
            ),
    {
        let la: usize = self.grad.len();
        let lb: usize = o.grad.len();
        let n: usize = if la >= lb { la } else { lb };
        let v2: Fixed = o.val.mul(&o.val);
        let mut grad: Vec<Fixed> = Vec::new();
        let mut i: usize = 0;
        while i < n
            invariant
                0 <= i <= n,
                n == self.blen(o),
                v2.m() == fx_mul(o.val.m(), o.val.m()),
                grad.len() == i,
                forall|j: int| 0 <= j < i ==> grad[j].m() == fx_div(
                    fx_sub(fx_mul(self.g(j), o.val.m()), fx_mul(self.val.m(), o.g(j))),
                    fx_mul(o.val.m(), o.val.m()),
                ),
            decreases n - i,
        {
            let a: Fixed = if i < self.grad.len() { self.grad[i] } else { Fixed::zero() };
            let b: Fixed = if i < o.grad.len() { o.grad[i] } else { Fixed::zero() };
            grad.push(a.mul(&o.val).sub(&self.val.mul(&b)).div(&v2));
            i = i + 1;
        }
        let result: Gradient = Gradient { val: self.val.div(&o.val), grad };
        proof {
            assert forall|i: int|
                #[trigger] result.g(i) == fx_div(
                    fx_sub(fx_mul(self.g(i), o.val.m()), fx_mul(self.val.m(), o.g(i))),
                    fx_mul(o.val.m(), o.val.m()),
                ) by {
                if !(0 <= i < result.grad.len()) {
                    lemma_fx_zero(o.val.m());
                    lemma_fx_zero(self.val.m());
                    lemma_fx_zero(fx_mul(o.val.m(), o.val.m()));
                }
            }
        }
        result
    }

    /// Negation, per component.
    pub fn neg(&self) -> (r: Gradient)
        ensures
            r.val.m() == -self.val.m(),
            r.grad.len() == self.grad.len(),
            forall|i: int| #[trigger] r.g(i) == -self.g(i),
    {
        let n: usize = self.grad.len();
        let mut grad: Vec<Fixed> = Vec::new();
        let mut i: usize = 0;
        while i < n
            invariant
                0 <= i <= n,
                n == self.grad.len(),
                grad.len() == i,
                forall|j: int| 0 <= j < i ==> grad[j].m() == -self.g(j),
            decreases n - i,
        {
            grad.push(self.grad[i].neg());
            i = i + 1;
        }
        Gradient { val: self.val.neg(), grad }
    }

    /// Scale every derivative component by a fixed factor.
    fn scale_grad(&self, factor: &Fixed) -> (r: Vec<Fixed>)
        ensures
            r.len() == self.grad.len(),
            forall|j: int| 0 <= j < r.len() ==> r[j].m() == fx_mul(self.g(j), factor.m()),
    {
        let n: usize = self.grad.len();
        let mut grad: Vec<Fixed> = Vec::new();
        let mut i: usize = 0;
        while i < n
            invariant
                0 <= i <= n,
                n == self.grad.len(),
                grad.len() == i,
                forall|j: int| 0 <= j < i ==> grad[j].m() == fx_mul(self.g(j), factor.m()),
            decreases n - i,
        {
            grad.push(self.grad[i].mul(factor));
            i = i + 1;
        }
        grad
    }

    /// Divide every derivative component by a fixed divisor.
    fn scale_grad_div(&self, divisor: &Fixed) -> (r: Vec<Fixed>)
        ensures
            r.len() == self.grad.len(),
            forall|j: int| 0 <= j < r.len() ==> r[j].m() == fx_div(self.g(j), divisor.m()),
    {
        let n: usize = self.grad.len();
        let mut grad: Vec<Fixed> = Vec::new();
        let mut i: usize = 0;
        while i < n
            invariant
                0 <= i <= n,
                n == self.grad.len(),
                grad.len() == i,
                forall|j: int| 0 <= j < i ==> grad[j].m() == fx_div(self.g(j), divisor.m()),
            decreases n - i,
        {
            grad.push(self.grad[i].div(divisor));
            i = i + 1;
        }
        grad
    }

    /// Chain rule for the exponential: each component is scaled by
    /// the new value, since `(e^f)' = f' e^f`.
    pub fn exp(&self) -> (r: Gradient)
        ensures
            r.val.m() == fx_exp(self.val.m()),
            r.grad.len() == self.grad.len(),
            forall|i: int| #[trigger] r.g(i) == fx_mul(self.g(i), fx_exp(self.val.m())),
    {
        let res: Fixed = self.val.exp();
        let grad: Vec<Fixed> = self.scale_grad(&res);
        Gradient { val: res, grad }
    }

    /// Chain rule for the logarithm: each component is divided by the
    /// original value, since `(ln f)' = f' / f`.
    pub fn ln(&self) -> (r: Gradient)
        ensures
            r.val.m() == fx_ln(self.val.m()),
            r.grad.len() == self.grad.len(),
            forall|i: int| #[trigger] r.g(i) == fx_div(self.g(i), self.val.m()),
    {
        let grad: Vec<Fixed> = self.scale_grad_div(&self.val);
        Gradient { val: self.val.ln(), grad }
    }

    /// Chain rule for the square root: each component is divided by
    /// twice the result, since `(sqrt f)' = f' / (2 sqrt f)`.
    pub fn sqrt(&self) -> (r: Gradient)
        ensures
            r.val.m() == fx_sqrt(self.val.m()),
            r.grad.len() == self.grad.len(),
            forall|i: int| #[trigger] r.g(i) == fx_div(
                self.g(i),
                fx_mul(fx_clip(2 * (SCALE as int)), fx_sqrt(self.val.m())),
            ),
    {
        let res: Fixed = self.val.sqrt();
        let denom: Fixed = Fixed::from_int(2).mul(&res);
        let grad: Vec<Fixed> = self.scale_grad_div(&denom);
        Gradient { val: res, grad }
    }

    /// Chain rule for an integer power: each component is scaled by
    /// `n * x^(n-1)`.
    pub fn powi(&self, n: i32) -> (r: Gradient)
        ensures
            r.val.m() == fx_powi(self.val.m(), n as int),
            r.grad.len() == self.grad.len(),
            forall|i: int| #[trigger] r.g(i) == fx_mul(
                self.g(i),
                fx_mul(fx_clip((n as int) * (SCALE as int)), fx_powi(self.val.m(), n as int - 1)),
            ),
    {
        let val: Fixed = self.val.powi(n as i64);
        let factor: Fixed = Fixed::from_int(n as i64).mul(&self.val.powi(n as i64 - 1));
        let grad: Vec<Fixed> = self.scale_grad(&factor);
        let result: Gradient = Gradient { val, grad };
        proof {
            assert forall|i: int|
                #[trigger] result.g(i) == fx_mul(
                    self.g(i),
                    fx_mul(fx_clip((n as int) * (SCALE as int)), fx_powi(self.val.m(), n as int - 1)),
                ) by {
                if !(0 <= i < result.grad.len()) {
                    lemma_fx_zero(factor.m());
                }
            }
        }
        result
    }

    /// Generalized power rule, with sensitivity carried in both the
    /// base and the exponent:
    /// `(f^g)' = f^g * (g' ln f + g f' / f)`.
    pub fn powf(&self, n: &Gradient) -> (r: Gradient)
        ensures
            r.val.m() == fx_powf(self.val.m(), n.val.m()),
            r.grad.len() == self.blen(n),
            forall|i: int| #[trigger] r.g(i) == fx_mul(
                fx_powf(self.val.m(), n.val.m()),
                fx_add(
                    fx_mul(n.g(i), fx_ln(self.val.m())),
                    fx_div(fx_mul(n.val.m(), self.g(i)), self.val.m()),
                ),
            ),
    {
        let val: Fixed = self.val.powf(&n.val);
        let lnx: Fixed = self.val.ln();
        let la: usize = self.grad.len();
        let lb: usize = n.grad.len();
        let nn: usize = if la >= lb { la } else { lb };
        let mut grad: Vec<Fixed> = Vec::new();
        let mut i: usize = 0;
        while i < nn
            invariant
                0 <= i <= nn,
                nn == self.blen(n),
                val.m() == fx_powf(self.val.m(), n.val.m()),
                lnx.m() == fx_ln(self.val.m()),
                grad.len() == i,
                forall|j: int| 0 <= j < i ==> grad[j].m() == fx_mul(
                    fx_powf(self.val.m(), n.val.m()),
                    fx_add(
                        fx_mul(n.g(j), fx_ln(self.val.m())),
                        fx_div(fx_mul(n.val.m(), self.g(j)), self.val.m()),
                    ),
                ),
            decreases nn - i,
        {
            let a: Fixed = if i < self.grad.len() { self.grad[i] } else { Fixed::zero() };
            let b: Fixed = if i < n.grad.len() { n.grad[i] } else { Fixed::zero() };
            let inner: Fixed = b.mul(&lnx).add(&n.val.mul(&a).div(&self.val));
            grad.push(val.mul(&inner));
            i = i + 1;
        }
        let result: Gradient = Gradient { val, grad };
        proof {
            assert forall|i: int|
                #[trigger] result.g(i) == fx_mul(
                    fx_powf(self.val.m(), n.val.m()),
                    fx_add(
                        fx_mul(n.g(i), fx_ln(self.val.m())),
                        fx_div(fx_mul(n.val.m(), self.g(i)), self.val.m()),
                    ),
                ) by {
                if !(0 <= i < result.grad.len()) {
                    lemma_fx_zero(fx_ln(self.val.m()));
                    lemma_fx_zero(n.val.m());
                    lemma_fx_zero(self.val.m());
                    lemma_fx_zero(fx_powf(self.val.m(), n.val.m()));
                }
            }
        }
        result
    }

    /// Chain rule for the normal CDF: each component is scaled by the
    /// normal density at the primal value, since `Phi'(f) = phi(f) f'`.
    pub fn norm_cdf(&self) -> (r: Gradient)
        ensures
            r.val.m() == fx_norm_cdf(self.val.m()),
            r.grad.len() == self.grad.len(),
            forall|i: int| #[trigger] r.g(i) == fx_mul(self.g(i), fx_norm_pdf(self.val.m())),
    {
        let pdf: Fixed = self.val.norm_pdf();
        let grad: Vec<Fixed> = self.scale_grad(&pdf);
        Gradient { val: self.val.norm_cdf(), grad }
    }

    /// An identical copy, entry by entry.
    fn copy_of(&self) -> (r: Gradient)
        ensures
            r.val == self.val,
            r.grad.len() == self.grad.len(),
            forall|i: int| #[trigger] r.g(i) == self.g(i),
    {
        let n: usize = self.grad.len();
        let mut grad: Vec<Fixed> = Vec::new();
        let mut i: usize = 0;
        while i < n
            invariant
                0 <= i <= n,
                n == self.grad.len(),
                grad.len() == i,
                forall|j: int| 0 <= j < i ==> grad[j] == self.grad[j],
            decreases n - i,
        {
            grad.push(self.grad[i]);
            i = i + 1;
        }
        Gradient { val: self.val, grad }
    }

    /// The operand with the larger primal value, kept whole (a
    /// subgradient choice at ties: the left operand).
    pub fn max(&self, o: &Gradient) -> (r: Gradient)
        ensures
            r.val.m() == fx_max(self.val.m(), o.val.m()),
            r.val == if self.val.m() >= o.val.m() { self.val } else { o.val },
            self.val.m() >= o.val.m() ==> r.grad.len() == self.grad.len()
                && (forall|i: int| #[trigger] r.g(i) == self.g(i)),
            self.val.m() < o.val.m() ==> r.grad.len() == o.grad.len()
                && (forall|i: int| #[trigger] r.g(i) == o.g(i)),
    {
        if o.val.lt(&self.val) || self.val.eq_val(&o.val) {
            self.copy_of()
        } else {
            o.copy_of()
        }
    }
}

impl Real for Gradient {
    open spec fn val_m(&self) -> int {
        self.val.m()
    }

    open spec fn wf(&self) -> bool {
        true
    }

    fn lift(v: Fixed) -> (r: Gradient) {
        Gradient::constant(v)
    }

    fn dup(&self) -> (r: Gradient) {
        self.copy_of()
    }

    fn to_fixed(&self) -> (r: Fixed) {
        self.val
    }

    fn add(&self, o: &Gradient) -> (r: Gradient) {
        Gradient::add(self, o)
    }

    fn sub(&self, o: &Gradient) -> (r: Gradient) {
        Gradient::sub(self, o)
    }

    fn mul(&self, o: &Gradient) -> (r: Gradient) {
        Gradient::mul(self, o)
    }

    fn div(&self, o: &Gradient) -> (r: Gradient) {
        Gradient::div(self, o)
    }

    fn neg(&self) -> (r: Gradient) {
        Gradient::neg(self)
    }

    fn max(&self, o: &Gradient) -> (r: Gradient) {
        Gradient::max(self, o)
    }

    fn exp(&self) -> (r: Gradient) {
        Gradient::exp(self)
    }

    fn ln(&self) -> (r: Gradient) {
        Gradient::ln(self)
    }

    fn sqrt(&self) -> (r: Gradient) {
        Gradient::sqrt(self)
    }

    fn powi(&self, n: i32) -> (r: Gradient) {
        Gradient::powi(self, n)
    }

    fn powf(&self, n: &Gradient) -> (r: Gradient) {
        Gradient::powf(self, n)
    }

    fn norm_cdf(&self) -> (r: Gradient) {
        Gradient::norm_cdf(self)
    }
}

} // verus!
