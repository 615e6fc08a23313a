//! Forward-mode second-order automatic differentiation.
//!
//! A [`Hessian`] carries a primal value, a gradient, and the full
//! matrix of second partial derivatives.  Every operation supplies
//! both its first- and second-derivative formulas; the matrix is
//! assembled directly from the commutative chain-rule terms, so it is
//! symmetric by construction whenever the inputs are.  As with the
//! first-order carrier, missing trailing components read as zero.

use vstd::prelude::*;
use crate::fixed::{Fixed, fx_add, fx_sub, fx_mul, fx_div, fx_max, fx_clip, lemma_fx_zero, SCALE};
use crate::trans::{fx_exp, fx_ln, fx_sqrt, fx_powi, fx_powf, fx_norm_cdf, fx_norm_pdf};
use crate::scalar::Real;

verus! {

broadcast use crate::fixed::lemma_fx_zero;

/// A value with first and second partial derivatives.
#[derive(Clone, Debug)]
pub struct Hessian {
    /// The primal value.
    pub val: Fixed,
    /// First partial derivatives.
    pub grad: Vec<Fixed>,
    /// Second partial derivatives, a square matrix over the tracked
    /// inputs.
    pub hess: Vec<Vec<Fixed>>,
}

/// The second-derivative term of a product:
/// `a h_b + b h_a + ga_i gb_j + ga_j gb_i`.
pub open spec fn mul_h_s(
    av: int,
    agi: int,
    agj: int,
    ah: int,
    bv: int,
    bgi: int,
    bgj: int,
    bh: int,
) -> int {
    fx_add(fx_add(fx_add(fx_mul(ah, bv), fx_mul(av, bh)), fx_mul(agi, bgj)), fx_mul(agj, bgi))
}

/// The first-derivative term of a product.
pub open spec fn mul_g_s(av: int, agi: int, bv: int, bgi: int) -> int {
    fx_add(fx_mul(agi, bv), fx_mul(av, bgi))
}

impl Hessian {
    /// The matrix is square over the gradient's length.
    pub open spec fn wf(&self) -> bool {
        &&& self.hess.len() == self.grad.len()
        &&& forall|i: int|
            0 <= i < self.hess.len() ==> (#[trigger] self.hess[i]).len() == self.grad.len()
    }

    /// Virtual gradient component `i`.
    pub open spec fn g(&self, i: int) -> int {
        if 0 <= i < self.grad.len() {
            self.grad[i].m()
        } else {
            0
        }
    }

    /// Virtual second-derivative component `(i, j)`.
    pub open spec fn h(&self, i: int, j: int) -> int {
        if 0 <= i < self.hess.len() && 0 <= j < self.hess[i].len() {
            self.hess[i][j].m()
        } else {
            0
        }
    }

    /// The matrix is symmetric.
    pub open spec fn sym(&self) -> bool {
        forall|i: int, j: int| #[trigger] self.h(i, j) == self.h(j, i)
    }

    /// Combined derivative count of two operands.
    pub open spec fn blen(&self, o: &Hessian) -> int {
        if self.grad.len() >= o.grad.len() {
            self.grad.len() as int
        } else {
            o.grad.len() as int
        }
    }

    /// A constant: no first or second derivative content.
    pub fn constant(val: Fixed) -> (r: Hessian)
        ensures
            r.wf(),
            r.val.m() == val.m(),
            r.grad.len() == 0,
            forall|i: int| #[trigger] r.g(i) == 0,
            forall|i: int, j: int| #[trigger] r.h(i, j) == 0,
    {
        Hessian { val, grad: Vec::new(), hess: Vec::new() }
    }

    /// The `index`-th of `n` independent inputs.
    pub fn var(val: Fixed, index: usize, n: usize) -> (r: Hessian)
        ensures
            r.wf(),
            r.val.m() == val.m(),
            r.grad.len() == n,
            forall|i: int| #[trigger] r.g(i) == if i == index && index < n { SCALE as int } else { 0 },
            forall|i: int, j: int| #[trigger] r.h(i, j) == 0,
    {
        let mut grad: Vec<Fixed> = Vec::new();
        let mut i: usize = 0;
        while i < n
            invariant
                0 <= i <= n,
                grad.len() == i,
                forall|k: int| 0 <= k < i ==> grad[k].m() == if k == index { SCALE as int } else { 0 },
            decreases n - i,
        {
            if i == index {
                grad.push(Fixed::one());
            } else {
                grad.push(Fixed::zero());
            }
            i = i + 1;
        }
        let mut hess: Vec<Vec<Fixed>> = Vec::new();
        let mut a: usize = 0;
        while a < n
            invariant
                0 <= a <= n,
                hess.len() == a,
                forall|x: int| 0 <= x < a ==> (#[trigger] hess[x]).len() == n,
                forall|x: int, y: int|
                    0 <= x < a && 0 <= y < n ==> (#[trigger] hess[x][y]).m() == 0,
            decreases n - a,
        {
            let mut row: Vec<Fixed> = Vec::new();
            let mut b: usize = 0;
            while b < n
                invariant
                    0 <= b <= n,
                    row.len() == b,
                    forall|y: int| 0 <= y < b ==> (#[trigger] row[y]).m() == 0,
                decreases n - b,
            {
                row.push(Fixed::zero());
                b = b + 1;
            }
            hess.push(row);
            a = a + 1;
        }
        Hessian { val, grad, hess }
    }

    /// Virtual gradient component, executable.
    fn gat(&self, i: usize) -> (r: Fixed)
        ensures
            r.m() == self.g(i as int),
    {
        if i < self.grad.len() {
            self.grad[i]
        } else {
            Fixed::zero()
        }
    }

    /// Virtual second-derivative component, executable.
    fn hat(&self, i: usize, j: usize) -> (r: Fixed)
        requires
            self.wf(),
        ensures
            r.m() == self.h(i as int, j as int),
    {
        if i < self.hess.len() && j < self.grad.len() {
            self.hess[i][j]
        } else {
            Fixed::zero()
        }
    }

    /// Componentwise sum.
    pub fn add(&self, o: &Hessian) -> (r: Hessian)
        requires
            self.wf(),
            o.wf(),
        ensures
            r.wf(),
            r.val.m() == fx_add(self.val.m(), o.val.m()),
            r.grad.len() == self.blen(o),
            forall|i: int| #[trigger] r.g(i) == fx_add(self.g(i), o.g(i)),
            forall|i: int, j: int| #[trigger] r.h(i, j) == fx_add(self.h(i, j), o.h(i, j)),
    {
        let n: usize = if self.grad.len() >= o.grad.len() {
            self.grad.len()
        } else {
            o.grad.len()
        };
        let val: Fixed = self.val.add(&o.val);
        let mut grad: Vec<Fixed> = Vec::new();
        let mut i: usize = 0;
        while i < n
            invariant
                0 <= i <= n,
                self.wf(),
                o.wf(),
                grad.len() == i,
                forall|k: int| 0 <= k < i ==> (#[trigger] grad[k]).m() == fx_add(self.g(k), o.g(k)),
            decreases n - i,
        {
            grad.push(self.gat(i).add(&o.gat(i)));
            i = i + 1;
        }
        let mut hess: Vec<Vec<Fixed>> = Vec::new();
        let mut a: usize = 0;
        while a < n
            invariant
                0 <= a <= n,
                self.wf(),
                o.wf(),
                hess.len() == a,
                forall|x: int| 0 <= x < a ==> (#[trigger] hess[x]).len() == n,
                forall|x: int, y: int|
                    0 <= x < a && 0 <= y < n ==> (#[trigger] hess[x][y]).m() == fx_add(
                        self.h(x, y),
                        o.h(x, y),
                    ),
            decreases n - a,
        {
            let mut row: Vec<Fixed> = Vec::new();
            let mut b: usize = 0;
            while b < n
                invariant
                    0 <= b <= n,
                    self.wf(),
                    o.wf(),
                    row.len() == b,
                    forall|y: int| 0 <= y < b ==> (#[trigger] row[y]).m() == fx_add(
                        self.h(a as int, y),
                        o.h(a as int, y),
                    ),
                decreases n - b,
            {
                row.push(self.hat(a, b).add(&o.hat(a, b)));
                b = b + 1;
            }
            hess.push(row);
            a = a + 1;
        }
        let result: Hessian = Hessian { val, grad, hess };
        proof {
            assert forall|i: int| #[trigger] result.g(i) == fx_add(self.g(i), o.g(i)) by {}
            assert forall|i: int, j: int|
                #[trigger] result.h(i, j) == fx_add(self.h(i, j), o.h(i, j)) by {}
        }
        result
    }

    /// Componentwise difference.
    pub fn sub(&self, o: &Hessian) -> (r: Hessian)
        requires
            self.wf(),
            o.wf(),
        ensures
            r.wf(),
            r.val.m() == fx_sub(self.val.m(), o.val.m()),
            r.grad.len() == self.blen(o),
            forall|i: int| #[trigger] r.g(i) == fx_sub(self.g(i), o.g(i)),
            forall|i: int, j: int| #[trigger] r.h(i, j) == fx_sub(self.h(i, j), o.h(i, j)),
    {
        let n: usize = if self.grad.len() >= o.grad.len() {
            self.grad.len()
        } else {
            o.grad.len()
        };
        let val: Fixed = self.val.sub(&o.val);
        let mut grad: Vec<Fixed> = Vec::new();
        let mut i: usize = 0;
        while i < n
            invariant
                0 <= i <= n,
                self.wf(),
                o.wf(),
                grad.len() == i,
                forall|k: int| 0 <= k < i ==> (#[trigger] grad[k]).m() == fx_sub(self.g(k), o.g(k)),
            decreases n - i,
        {
            grad.push(self.gat(i).sub(&o.gat(i)));
            i = i + 1;
        }
        let mut hess: Vec<Vec<Fixed>> = Vec::new();
        let mut a: usize = 0;
        while a < n
            invariant
                0 <= a <= n,
                self.wf(),
                o.wf(),
                hess.len() == a,
                forall|x: int| 0 <= x < a ==> (#[trigger] hess[x]).len() == n,
                forall|x: int, y: int|
                    0 <= x < a && 0 <= y < n ==> (#[trigger] hess[x][y]).m() == fx_sub(
                        self.h(x, y),
                        o.h(x, y),
                    ),
            decreases n - a,
        {
            let mut row: Vec<Fixed> = Vec::new();
            let mut b: usize = 0;
            while b < n
                invariant
                    0 <= b <= n,
                    self.wf(),
                    o.wf(),
                    row.len() == b,
                    forall|y: int| 0 <= y < b ==> (#[trigger] row[y]).m() == fx_sub(
                        self.h(a as int, y),
                        o.h(a as int, y),
                    ),
                decreases n - b,
            {
                row.push(self.hat(a, b).sub(&o.hat(a, b)));
                b = b + 1;
            }
            hess.push(row);
            a = a + 1;
        }
        let result: Hessian = Hessian { val, grad, hess };
        proof {
            assert forall|i: int| #[trigger] result.g(i) == fx_sub(self.g(i), o.g(i)) by {}
            assert forall|i: int, j: int|
                #[trigger] result.h(i, j) == fx_sub(self.h(i, j), o.h(i, j)) by {}
        }
        result
    }

    /// Product rule, to second order.
    pub fn mul(&self, o: &Hessian) -> (r: Hessian)
        requires
            self.wf(),
            o.wf(),
        ensures
            r.wf(),
            r.val.m() == fx_mul(self.val.m(), o.val.m()),
            r.grad.len() == self.blen(o),
            forall|i: int|
                #[trigger] r.g(i) == mul_g_s(self.val.m(), self.g(i), o.val.m(), o.g(i)),
            forall|i: int, j: int|
                #[trigger] r.h(i, j) == mul_h_s(
                    self.val.m(),
                    self.g(i),
                    self.g(j),
                    self.h(i, j),
                    o.val.m(),
                    o.g(i),
                    o.g(j),
                    o.h(i, j),
                ),
    {
        let n: usize = if self.grad.len() >= o.grad.len() {
            self.grad.len()
        } else {
            o.grad.len()
        };
        let val: Fixed = self.val.mul(&o.val);
        let mut grad: Vec<Fixed> = Vec::new();
        let mut i: usize = 0;
        while i < n
            invariant
                0 <= i <= n,
                self.wf(),
                o.wf(),
                grad.len() == i,
                forall|k: int|
                    0 <= k < i ==> (#[trigger] grad[k]).m() == mul_g_s(
                        self.val.m(),
                        self.g(k),
                        o.val.m(),
                        o.g(k),
                    ),
            decreases n - i,
        {
            grad.push(self.gat(i).mul(&o.val).add(&self.val.mul(&o.gat(i))));
            i = i + 1;
        }
        let mut hess: Vec<Vec<Fixed>> = Vec::new();
        let mut a: usize = 0;
        while a < n
            invariant
                0 <= a <= n,
                self.wf(),
                o.wf(),
                hess.len() == a,
                forall|x: int| 0 <= x < a ==> (#[trigger] hess[x]).len() == n,
                forall|x: int, y: int|
                    0 <= x < a && 0 <= y < n ==> (#[trigger] hess[x][y]).m() == mul_h_s(
                        self.val.m(),
                        self.g(x),
                        self.g(y),
                        self.h(x, y),
                        o.val.m(),
                        o.g(x),
                        o.g(y),
                        o.h(x, y),
                    ),
            decreases n - a,
        {
            let mut row: Vec<Fixed> = Vec::new();
            let mut b: usize = 0;
            while b < n
                invariant
                    0 <= b <= n,
                    self.wf(),
                    o.wf(),
                    row.len() == b,
                    forall|y: int| 0 <= y < b ==> (#[trigger] row[y]).m() == mul_h_s(
                        self.val.m(),
                        self.g(a as int),
                        self.g(y),
                        self.h(a as int, y),
                        o.val.m(),
                        o.g(a as int),
                        o.g(y),
                        o.h(a as int, y),
                    ),
                decreases n - b,
            {
                let t1: Fixed = self.hat(a, b).mul(&o.val).add(&self.val.mul(&o.hat(a, b)));
                let t2: Fixed = t1.add(&self.gat(a).mul(&o.gat(b)));
                row.push(t2.add(&self.gat(b).mul(&o.gat(a))));
                b = b + 1;
            }
            hess.push(row);
            a = a + 1;
        }
        let result: Hessian = Hessian { val, grad, hess };
        proof {
            assert forall|i: int|
                #[trigger] result.g(i) == mul_g_s(self.val.m(), self.g(i), o.val.m(), o.g(i)) by {
                if !(0 <= i < result.grad.len()) {
                    lemma_fx_zero(self.val.m());
                    lemma_fx_zero(o.val.m());
                }
            }
            assert forall|i: int, j: int|
                #[trigger] result.h(i, j) == mul_h_s(
                    self.val.m(),
                    self.g(i),
                    self.g(j),
                    self.h(i, j),
                    o.val.m(),
                    o.g(i),
                    o.g(j),
                    o.h(i, j),
                ) by {
                if !(0 <= i < result.grad.len() && 0 <= j < result.grad.len()) {
                    lemma_fx_zero(self.val.m());
                    lemma_fx_zero(o.val.m());
                    lemma_fx_zero(self.g(i));
                    lemma_fx_zero(self.g(j));
                    lemma_fx_zero(o.g(i));
                    lemma_fx_zero(o.g(j));
                }
            }
        }
        result
    }

    /// The preserved-operand choice at a maximum, decided by the
    /// primal values (ties keep the left operand).
    pub fn max(&self, o: &Hessian) -> (r: Hessian)
        requires
            self.wf(),
            o.wf(),
        ensures
            r.wf(),
            r.val.m() == fx_max(self.val.m(), o.val.m()),
            self.val.m() >= o.val.m() ==> r.grad.len() == self.grad.len()
                && (forall|i: int| #[trigger] r.g(i) == self.g(i))
                && (forall|i: int, j: int| #[trigger] r.h(i, j) == self.h(i, j)),
            self.val.m() < o.val.m() ==> r.grad.len() == o.grad.len()
                && (forall|i: int| #[trigger] r.g(i) == o.g(i))
                && (forall|i: int, j: int| #[trigger] r.h(i, j) == o.h(i, j)),
    {
        if o.val.lt(&self.val) || self.val.eq_val(&o.val) {
            self.copy_of()
        } else {
            o.copy_of()
        }
    }

    /// An identical copy, entry by entry.
    fn copy_of(&self) -> (r: Hessian)
        requires
            self.wf(),
        ensures
            r.wf(),
            r.val == self.val,
            r.grad.len() == self.grad.len(),
            forall|i: int| #[trigger] r.g(i) == self.g(i),
            forall|i: int, j: int| #[trigger] r.h(i, j) == self.h(i, j),
    {
        let n: usize = self.grad.len();
        let mut grad: Vec<Fixed> = Vec::new();
        let mut i: usize = 0;
        while i < n
            invariant
                0 <= i <= n,
                n == self.grad.len(),
                grad.len() == i,
                forall|k: int| 0 <= k < i ==> grad[k] == self.grad[k],
            decreases n - i,
        {
            grad.push(self.grad[i]);
            i = i + 1;
        }
        let mut hess: Vec<Vec<Fixed>> = Vec::new();
        let mut a: usize = 0;
        while a < n
            invariant
                0 <= a <= n,
                n == self.grad.len(),
                self.wf(),
                hess.len() == a,
                forall|x: int| 0 <= x < a ==> (#[trigger] hess[x]).len() == n,
                forall|x: int, y: int|
                    0 <= x < a && 0 <= y < n ==> (#[trigger] hess[x][y]).m() == self.h(x, y),
            decreases n - a,
        {
            let mut row: Vec<Fixed> = Vec::new();
            let mut b: usize = 0;
            while b < n
                invariant
                    0 <= b <= n,
                    n == self.grad.len(),
                    self.wf(),
                    row.len() == b,
                    forall|y: int| 0 <= y < b ==> (#[trigger] row[y]).m() == self.h(a as int, y),
                decreases n - b,
            {
                row.push(self.hat(a, b));
                b = b + 1;
            }
            hess.push(row);
            a = a + 1;
        }
        Hessian { val: self.val, grad, hess }
    }
}


impl Hessian {
    /// Negation, componentwise.
    pub fn neg(&self) -> (r: Hessian)
        requires
            self.wf(),
        ensures
            r.wf(),
            r.val.m() == -self.val.m(),
            r.grad.len() == self.grad.len(),
            forall|i: int| #[trigger] r.g(i) == -self.g(i),
            forall|i: int, j: int| #[trigger] r.h(i, j) == -self.h(i, j),
    {
        let n: usize = self.grad.len();
        let val: Fixed = self.val.neg();
        let mut grad: Vec<Fixed> = Vec::new();
        let mut i: usize = 0;
        while i < n
            invariant
                0 <= i <= n,
                n == self.grad.len(),
                self.wf(),
                grad.len() == i,
                forall|k: int| 0 <= k < i ==> (#[trigger] grad[k]).m() == -self.g(k),
            decreases n - i,
        {
            grad.push(self.grad[i].neg());
            i = i + 1;
        }
        let mut hess: Vec<Vec<Fixed>> = Vec::new();
        let mut a: usize = 0;
        while a < n
            invariant
                0 <= a <= n,
                n == self.grad.len(),
                self.wf(),
                hess.len() == a,
                forall|x: int| 0 <= x < a ==> (#[trigger] hess[x]).len() == n,
                forall|x: int, y: int|
                    0 <= x < a && 0 <= y < n ==> (#[trigger] hess[x][y]).m() == -self.h(x, y),
            decreases n - a,
        {
            let mut row: Vec<Fixed> = Vec::new();
            let mut b: usize = 0;
            while b < n
                invariant
                    0 <= b <= n,
                    n == self.grad.len(),
                    self.wf(),
                    row.len() == b,
                    forall|y: int| 0 <= y < b ==> (#[trigger] row[y]).m() == -self.h(a as int, y),
                decreases n - b,
            {
                row.push(self.hat(a, b).neg());
                b = b + 1;
            }
            hess.push(row);
            a = a + 1;
        }
        Hessian { val, grad, hess }
    }

    /// Shared shape of the unary chain rules: the gradient scaled or
    /// divided by a factor, the matrix assembled per entry.
    fn unary_build(&self, val: Fixed, f1: Fixed, divide: bool, f2: Fixed, hmode: u8) -> (r:
        Hessian)
        requires
            self.wf(),
            hmode == 1 || hmode == 2 || hmode == 3,
        ensures
            r.wf(),
            r.val == val,
            r.grad.len() == self.grad.len(),
            forall|i: int|
                #[trigger] r.g(i) == if divide {
                    fx_div(self.g(i), f1.m())
                } else {
                    fx_mul(self.g(i), f1.m())
                },
            hmode == 1 ==> forall|i: int, j: int|
                #[trigger] r.h(i, j) == fx_mul(f1.m(), fx_add(self.h(i, j), fx_mul(self.g(i), self.g(j)))),
            hmode == 2 ==> forall|i: int, j: int|
                #[trigger] r.h(i, j) == fx_add(
                    fx_mul(self.h(i, j), f1.m()),
                    fx_mul(fx_mul(f2.m(), self.g(i)), self.g(j)),
                ),
            hmode == 3 ==> forall|i: int, j: int|
                #[trigger] r.h(i, j) == fx_sub(
                    fx_div(self.h(i, j), f1.m()),
                    fx_div(fx_mul(self.g(i), self.g(j)), f2.m()),
                ),
    {
        let n: usize = self.grad.len();
        let mut grad: Vec<Fixed> = Vec::new();
        let mut i: usize = 0;
        while i < n
            invariant
                0 <= i <= n,
                n == self.grad.len(),
                self.wf(),
                grad.len() == i,
                forall|k: int|
                    0 <= k < i ==> (#[trigger] grad[k]).m() == if divide {
                        fx_div(self.g(k), f1.m())
                    } else {
                        fx_mul(self.g(k), f1.m())
                    },
            decreases n - i,
        {
            if divide {
                grad.push(self.grad[i].div(&f1));
            } else {
                grad.push(self.grad[i].mul(&f1));
            }
            i = i + 1;
        }
        let mut hess: Vec<Vec<Fixed>> = Vec::new();
        let mut a: usize = 0;
        while a < n
            invariant
                0 <= a <= n,
                n == self.grad.len(),
                self.wf(),
                hmode == 1 || hmode == 2 || hmode == 3,
                hess.len() == a,
                forall|x: int| 0 <= x < a ==> (#[trigger] hess[x]).len() == n,
                hmode == 1 ==> forall|x: int, y: int|
                    0 <= x < a && 0 <= y < n ==> (#[trigger] hess[x][y]).m() == fx_mul(
                        f1.m(),
                        fx_add(self.h(x, y), fx_mul(self.g(x), self.g(y))),
                    ),
                hmode == 2 ==> forall|x: int, y: int|
                    0 <= x < a && 0 <= y < n ==> (#[trigger] hess[x][y]).m() == fx_add(
                        fx_mul(self.h(x, y), f1.m()),
                        fx_mul(fx_mul(f2.m(), self.g(x)), self.g(y)),
                    ),
                hmode == 3 ==> forall|x: int, y: int|
                    0 <= x < a && 0 <= y < n ==> (#[trigger] hess[x][y]).m() == fx_sub(
                        fx_div(self.h(x, y), f1.m()),
                        fx_div(fx_mul(self.g(x), self.g(y)), f2.m()),
                    ),
            decreases n - a,
        {
            let mut row: Vec<Fixed> = Vec::new();
            let mut b: usize = 0;
            while b < n
                invariant
                    0 <= b <= n,
                    n == self.grad.len(),
                    self.wf(),
                    a < n,
                    hmode == 1 || hmode == 2 || hmode == 3,
                    row.len() == b,
                    hmode == 1 ==> forall|y: int|
                        0 <= y < b ==> (#[trigger] row[y]).m() == fx_mul(
                            f1.m(),
                            fx_add(self.h(a as int, y), fx_mul(self.g(a as int), self.g(y))),
                        ),
                    hmode == 2 ==> forall|y: int|
                        0 <= y < b ==> (#[trigger] row[y]).m() == fx_add(
                            fx_mul(self.h(a as int, y), f1.m()),
                            fx_mul(fx_mul(f2.m(), self.g(a as int)), self.g(y)),
                        ),
                    hmode == 3 ==> forall|y: int|
                        0 <= y < b ==> (#[trigger] row[y]).m() == fx_sub(
                            fx_div(self.h(a as int, y), f1.m()),
                            fx_div(fx_mul(self.g(a as int), self.g(y)), f2.m()),
                        ),
                decreases n - b,
            {
                if hmode == 1 {
                    row.push(f1.mul(&self.hat(a, b).add(&self.gat(a).mul(&self.gat(b)))));
                } else if hmode == 2 {
                    row.push(
                        self.hat(a, b).mul(&f1).add(&f2.mul(&self.gat(a)).mul(&self.gat(b))),
                    );
                } else {
                    row.push(
                        self.hat(a, b).div(&f1).sub(&self.gat(a).mul(&self.gat(b)).div(&f2)),
                    );
                }
                b = b + 1;
            }
            hess.push(row);
            a = a + 1;
        }
        let result: Hessian = Hessian { val, grad, hess };
        proof {
            assert forall|i: int|
                #[trigger] result.g(i) == if divide {
                    fx_div(self.g(i), f1.m())
                } else {
                    fx_mul(self.g(i), f1.m())
                } by {
                if !(0 <= i < result.grad.len()) {
                    lemma_fx_zero(f1.m());
                }
            }
            if hmode == 1 {
                assert forall|i: int, j: int|
                    #[trigger] result.h(i, j) == fx_mul(
                        f1.m(),
                        fx_add(self.h(i, j), fx_mul(self.g(i), self.g(j))),
                    ) by {
                    if !(0 <= i < result.grad.len() && 0 <= j < result.grad.len()) {
                        lemma_fx_zero(f1.m());
                        lemma_fx_zero(self.g(i));
                        lemma_fx_zero(self.g(j));
                    }
                }
            }
            if hmode == 2 {
                assert forall|i: int, j: int|
                    #[trigger] result.h(i, j) == fx_add(
                        fx_mul(self.h(i, j), f1.m()),
                        fx_mul(fx_mul(f2.m(), self.g(i)), self.g(j)),
                    ) by {
                    if !(0 <= i < result.grad.len() && 0 <= j < result.grad.len()) {
                        lemma_fx_zero(f1.m());
                        lemma_fx_zero(f2.m());
                        lemma_fx_zero(self.g(i));
                        lemma_fx_zero(self.g(j));
                        lemma_fx_zero(fx_mul(f2.m(), self.g(i)));
                    }
                }
            }
            if hmode == 3 {
                assert forall|i: int, j: int|
                    #[trigger] result.h(i, j) == fx_sub(
                        fx_div(self.h(i, j), f1.m()),
                        fx_div(fx_mul(self.g(i), self.g(j)), f2.m()),
                    ) by {
                    if !(0 <= i < result.grad.len() && 0 <= j < result.grad.len()) {
                        lemma_fx_zero(f1.m());
                        lemma_fx_zero(f2.m());
                        lemma_fx_zero(self.g(i));
                        lemma_fx_zero(self.g(j));
                    }
                }
            }
        }
        result
    }

    /// Chain rule for the exponential, to second order:
    /// `(e^f)'' = e^f (f'' + f' f')`.
    pub fn exp(&self) -> (r: Hessian)
        requires
            self.wf(),
        ensures
            r.wf(),
            r.val.m() == fx_exp(self.val.m()),
            r.grad.len() == self.grad.len(),
            forall|i: int| #[trigger] r.g(i) == fx_mul(self.g(i), fx_exp(self.val.m())),
            forall|i: int, j: int|
                #[trigger] r.h(i, j) == fx_mul(
                    fx_exp(self.val.m()),
                    fx_add(self.h(i, j), fx_mul(self.g(i), self.g(j))),
                ),
    {
        let e: Fixed = self.val.exp();
        let r: Hessian = self.unary_build(e, e, false, Fixed::zero(), 1);
        proof {
            assert forall|i: int, j: int|
                #[trigger] r.h(i, j) == fx_mul(
                    fx_exp(self.val.m()),
                    fx_add(self.h(i, j), fx_mul(self.g(i), self.g(j))),
                ) by {
                if !(0 <= i < r.grad.len() && 0 <= j < r.grad.len()) {
                    lemma_fx_zero(self.g(i));
                    lemma_fx_zero(self.g(j));
                    lemma_fx_zero(fx_exp(self.val.m()));
                }
            }
            assert forall|i: int| #[trigger] r.g(i) == fx_mul(self.g(i), fx_exp(self.val.m())) by {
                if !(0 <= i < r.grad.len()) {
                    lemma_fx_zero(fx_exp(self.val.m()));
                }
            }
        }
        r
    }

    /// Chain rule for the logarithm, to second order:
    /// `(ln f)'' = f''/f - f' f'/f^2`.
    pub fn ln(&self) -> (r: Hessian)
        requires
            self.wf(),
        ensures
            r.wf(),
            r.val.m() == fx_ln(self.val.m()),
            r.grad.len() == self.grad.len(),
            forall|i: int| #[trigger] r.g(i) == fx_div(self.g(i), self.val.m()),
            forall|i: int, j: int|
                #[trigger] r.h(i, j) == fx_sub(
                    fx_div(self.h(i, j), self.val.m()),
                    fx_div(fx_mul(self.g(i), self.g(j)), fx_mul(self.val.m(), self.val.m())),
                ),
    {
        let v2: Fixed = self.val.mul(&self.val);
        let r: Hessian = self.unary_build(self.val.ln(), self.val, true, v2, 3);
        proof {
            assert forall|i: int, j: int|
                #[trigger] r.h(i, j) == fx_sub(
                    fx_div(self.h(i, j), self.val.m()),
                    fx_div(fx_mul(self.g(i), self.g(j)), fx_mul(self.val.m(), self.val.m())),
                ) by {
                if !(0 <= i < r.grad.len() && 0 <= j < r.grad.len()) {
                    lemma_fx_zero(self.g(i));
                    lemma_fx_zero(self.g(j));
                    lemma_fx_zero(self.val.m());
                    lemma_fx_zero(fx_mul(self.val.m(), self.val.m()));
                }
            }
            assert forall|i: int| #[trigger] r.g(i) == fx_div(self.g(i), self.val.m()) by {
                if !(0 <= i < r.grad.len()) {
                    lemma_fx_zero(self.val.m());
                }
            }
        }
        r
    }

    /// Chain rule for the square root, to second order:
    /// `(sqrt f)'' = f''/(2 sqrt f) - f' f'/(4 f^(3/2))`.
    pub fn sqrt(&self) -> (r: Hessian)
        requires
            self.wf(),
        ensures
            r.wf(),
            r.val.m() == fx_sqrt(self.val.m()),
            r.grad.len() == self.grad.len(),
            forall|i: int|
                #[trigger] r.g(i) == fx_div(
                    self.g(i),
                    fx_mul(fx_clip(2 * (SCALE as int)), fx_sqrt(self.val.m())),
                ),
            forall|i: int, j: int|
                #[trigger] r.h(i, j) == fx_sub(
                    fx_div(self.h(i, j), fx_mul(fx_clip(2 * (SCALE as int)), fx_sqrt(self.val.m()))),
                    fx_div(
                        fx_mul(self.g(i), self.g(j)),
                        fx_mul(
                            fx_clip(4 * (SCALE as int)),
                            fx_mul(fx_sqrt(self.val.m()), fx_mul(fx_sqrt(self.val.m()), fx_sqrt(self.val.m()))),
                        ),
                    ),
                ),
    {
        let s: Fixed = self.val.sqrt();
        let twos: Fixed = Fixed::from_int(2).mul(&s);
        let fours3: Fixed = Fixed::from_int(4).mul(&s.mul(&s.mul(&s)));
        let r: Hessian = self.unary_build(s, twos, true, fours3, 3);
        proof {
            assert forall|i: int, j: int|
                #[trigger] r.h(i, j) == fx_sub(
                    fx_div(self.h(i, j), fx_mul(fx_clip(2 * (SCALE as int)), fx_sqrt(self.val.m()))),
                    fx_div(
                        fx_mul(self.g(i), self.g(j)),
                        fx_mul(
                            fx_clip(4 * (SCALE as int)),
                            fx_mul(fx_sqrt(self.val.m()), fx_mul(fx_sqrt(self.val.m()), fx_sqrt(self.val.m()))),
                        ),
                    ),
                ) by {
                if !(0 <= i < r.grad.len() && 0 <= j < r.grad.len()) {
                    lemma_fx_zero(self.g(i));
                    lemma_fx_zero(self.g(j));
                    lemma_fx_zero(twos.m());
                    lemma_fx_zero(fours3.m());
                }
            }
            assert forall|i: int|
                #[trigger] r.g(i) == fx_div(
                    self.g(i),
                    fx_mul(fx_clip(2 * (SCALE as int)), fx_sqrt(self.val.m())),
                ) by {
                if !(0 <= i < r.grad.len()) {
                    lemma_fx_zero(twos.m());
                }
            }
        }
        r
    }

    /// Chain rule for an integer power, to second order: first factor
    /// `n x^(n-1)`, second factor `n (n-1) x^(n-2)`.
    pub fn powi(&self, n: i32) -> (r: Hessian)
        requires
            self.wf(),
        ensures
            r.wf(),
            r.val.m() == fx_powi(self.val.m(), n as int),
            r.grad.len() == self.grad.len(),
            forall|i: int|
                #[trigger] r.g(i) == fx_mul(
                    self.g(i),
                    fx_mul(fx_clip((n as int) * (SCALE as int)), fx_powi(self.val.m(), n as int - 1)),
                ),
            forall|i: int, j: int|
                #[trigger] r.h(i, j) == fx_add(
                    fx_mul(
                        self.h(i, j),
                        fx_mul(fx_clip((n as int) * (SCALE as int)), fx_powi(self.val.m(), n as int - 1)),
                    ),
                    fx_mul(
                        fx_mul(
                            fx_mul(
                                fx_mul(fx_clip((n as int) * (SCALE as int)), fx_clip((n as int - 1) * (SCALE as int))),
                                fx_powi(self.val.m(), n as int - 2),
                            ),
                            self.g(i),
                        ),
                        self.g(j),
                    ),
                ),
    {
        let f1: Fixed = Fixed::from_int(n as i64).mul(&self.val.powi(n as i64 - 1));
        let f2: Fixed = Fixed::from_int(n as i64).mul(&Fixed::from_int(n as i64 - 1)).mul(
            &self.val.powi(n as i64 - 2),
        );
        let r: Hessian = self.unary_build(self.val.powi(n as i64), f1, false, f2, 2);
        proof {
            assert forall|i: int, j: int|
                #[trigger] r.h(i, j) == fx_add(
                    fx_mul(self.h(i, j), f1.m()),
                    fx_mul(fx_mul(f2.m(), self.g(i)), self.g(j)),
                ) by {
                if !(0 <= i < r.grad.len() && 0 <= j < r.grad.len()) {
                    lemma_fx_zero(self.g(i));
                    lemma_fx_zero(self.g(j));
                    lemma_fx_zero(f1.m());
                    lemma_fx_zero(f2.m());
                    lemma_fx_zero(fx_mul(f2.m(), self.g(i)));
                }
            }
            assert forall|i: int| #[trigger] r.g(i) == fx_mul(self.g(i), f1.m()) by {
                if !(0 <= i < r.grad.len()) {
                    lemma_fx_zero(f1.m());
                }
            }
        }
        r
    }

    /// Chain rule for the normal CDF, to second order: the density's
    /// own derivative `-x phi(x)` feeds the matrix term.
    pub fn norm_cdf(&self) -> (r: Hessian)
        requires
            self.wf(),
        ensures
            r.wf(),
            r.val.m() == fx_norm_cdf(self.val.m()),
            r.grad.len() == self.grad.len(),
            forall|i: int| #[trigger] r.g(i) == fx_mul(self.g(i), fx_norm_pdf(self.val.m())),
            forall|i: int, j: int|
                #[trigger] r.h(i, j) == fx_add(
                    fx_mul(self.h(i, j), fx_norm_pdf(self.val.m())),
                    fx_mul(
                        fx_mul(fx_mul(-self.val.m(), fx_norm_pdf(self.val.m())), self.g(i)),
                        self.g(j),
                    ),
                ),
    {
        let pdf: Fixed = self.val.norm_pdf();
        let pdfd: Fixed = self.val.neg().mul(&pdf);
        let r: Hessian = self.unary_build(self.val.norm_cdf(), pdf, false, pdfd, 2);
        proof {
            assert forall|i: int, j: int|
                #[trigger] r.h(i, j) == fx_add(
                    fx_mul(self.h(i, j), pdf.m()),
                    fx_mul(fx_mul(pdfd.m(), self.g(i)), self.g(j)),
                ) by {
                if !(0 <= i < r.grad.len() && 0 <= j < r.grad.len()) {
                    lemma_fx_zero(self.g(i));
                    lemma_fx_zero(self.g(j));
                    lemma_fx_zero(pdf.m());
                    lemma_fx_zero(pdfd.m());
                    lemma_fx_zero(fx_mul(pdfd.m(), self.g(i)));
                }
            }
            assert forall|i: int| #[trigger] r.g(i) == fx_mul(self.g(i), pdf.m()) by {
                if !(0 <= i < r.grad.len()) {
                    lemma_fx_zero(pdf.m());
                }
            }
        }
        r
    }

    /// Generalized quotient rule, to second order, with the quotient
    /// reused: `q = u/v`, `g = (u' - q v')/v`,
    /// `h = (u'' - q v'' - g_i v'_j - g_j v'_i)/v`.
    pub fn div(&self, o: &Hessian) -> (r: Hessian)
        requires
            self.wf(),
            o.wf(),
        ensures
            r.wf(),
            r.val.m() == fx_div(self.val.m(), o.val.m()),
            r.grad.len() == self.blen(o),
            forall|i: int|
                #[trigger] r.g(i) == fx_div(
                    fx_sub(self.g(i), fx_mul(fx_div(self.val.m(), o.val.m()), o.g(i))),
                    o.val.m(),
                ),
            forall|i: int, j: int|
                #[trigger] r.h(i, j) == ({
                    let q = fx_div(self.val.m(), o.val.m());
                    let gi = fx_div(fx_sub(self.g(i), fx_mul(q, o.g(i))), o.val.m());
                    let gj = fx_div(fx_sub(self.g(j), fx_mul(q, o.g(j))), o.val.m());
                    fx_div(
                        fx_sub(
                            fx_sub(fx_sub(self.h(i, j), fx_mul(q, o.h(i, j))), fx_mul(gi, o.g(j))),
                            fx_mul(gj, o.g(i)),
                        ),
                        o.val.m(),
                    )
                }),
    {
        let n: usize = if self.grad.len() >= o.grad.len() {
            self.grad.len()
        } else {
            o.grad.len()
        };
        let q: Fixed = self.val.div(&o.val);
        let mut grad: Vec<Fixed> = Vec::new();
        let mut i: usize = 0;
        while i < n
            invariant
                0 <= i <= n,
                self.wf(),
                o.wf(),
                q.m() == fx_div(self.val.m(), o.val.m()),
                grad.len() == i,
                forall|k: int|
                    0 <= k < i ==> (#[trigger] grad[k]).m() == fx_div(
                        fx_sub(self.g(k), fx_mul(q.m(), o.g(k))),
                        o.val.m(),
                    ),
            decreases n - i,
        {
            grad.push(self.gat(i).sub(&q.mul(&o.gat(i))).div(&o.val));
            i = i + 1;
        }
        let mut hess: Vec<Vec<Fixed>> = Vec::new();
        let mut a: usize = 0;
        while a < n
            invariant
                0 <= a <= n,
                self.wf(),
                o.wf(),
                q.m() == fx_div(self.val.m(), o.val.m()),
                hess.len() == a,
                forall|x: int| 0 <= x < a ==> (#[trigger] hess[x]).len() == n,
                forall|x: int, y: int|
                    0 <= x < a && 0 <= y < n ==> (#[trigger] hess[x][y]).m() == ({
                        let gx = fx_div(fx_sub(self.g(x), fx_mul(q.m(), o.g(x))), o.val.m());
                        let gy = fx_div(fx_sub(self.g(y), fx_mul(q.m(), o.g(y))), o.val.m());
                        fx_div(
                            fx_sub(
                                fx_sub(
                                    fx_sub(self.h(x, y), fx_mul(q.m(), o.h(x, y))),
                                    fx_mul(gx, o.g(y)),
                                ),
                                fx_mul(gy, o.g(x)),
                            ),
                            o.val.m(),
                        )
                    }),
            decreases n - a,
        {
            let mut row: Vec<Fixed> = Vec::new();
            let ga: Fixed = self.gat(a).sub(&q.mul(&o.gat(a))).div(&o.val);
            let mut b: usize = 0;
            while b < n
                invariant
                    0 <= b <= n,
                    a < n,
                    self.wf(),
                    o.wf(),
                    q.m() == fx_div(self.val.m(), o.val.m()),
                    ga.m() == fx_div(
                        fx_sub(self.g(a as int), fx_mul(q.m(), o.g(a as int))),
                        o.val.m(),
                    ),
                    row.len() == b,
                    forall|y: int|
                        0 <= y < b ==> (#[trigger] row[y]).m() == ({
                            let gx = fx_div(
                                fx_sub(self.g(a as int), fx_mul(q.m(), o.g(a as int))),
                                o.val.m(),
                            );
                            let gy = fx_div(fx_sub(self.g(y), fx_mul(q.m(), o.g(y))), o.val.m());
                            fx_div(
                                fx_sub(
                                    fx_sub(
                                        fx_sub(self.h(a as int, y), fx_mul(q.m(), o.h(a as int, y))),
                                        fx_mul(gx, o.g(y)),
                                    ),
                                    fx_mul(gy, o.g(a as int)),
                                ),
                                o.val.m(),
                            )
                        }),
                decreases n - b,
            {
                let gb: Fixed = self.gat(b).sub(&q.mul(&o.gat(b))).div(&o.val);
                let num: Fixed = self.hat(a, b).sub(&q.mul(&o.hat(a, b))).sub(
                    &ga.mul(&o.gat(b)),
                ).sub(&gb.mul(&o.gat(a)));
                row.push(num.div(&o.val));
                b = b + 1;
            }
            hess.push(row);
            a = a + 1;
        }
        let result: Hessian = Hessian { val: q, grad, hess };
        proof {
            assert forall|i: int|
                #[trigger] result.g(i) == fx_div(
                    fx_sub(self.g(i), fx_mul(fx_div(self.val.m(), o.val.m()), o.g(i))),
                    o.val.m(),
                ) by {
                if !(0 <= i < result.grad.len()) {
                    lemma_fx_zero(fx_div(self.val.m(), o.val.m()));
                    lemma_fx_zero(o.val.m());
                }
            }
            assert forall|i: int, j: int|
                #[trigger] result.h(i, j) == ({
                    let qq = fx_div(self.val.m(), o.val.m());
                    let gi = fx_div(fx_sub(self.g(i), fx_mul(qq, o.g(i))), o.val.m());
                    let gj = fx_div(fx_sub(self.g(j), fx_mul(qq, o.g(j))), o.val.m());
                    fx_div(
                        fx_sub(
                            fx_sub(fx_sub(self.h(i, j), fx_mul(qq, o.h(i, j))), fx_mul(gi, o.g(j))),
                            fx_mul(gj, o.g(i)),
                        ),
                        o.val.m(),
                    )
                }) by {
                if !(0 <= i < result.grad.len() && 0 <= j < result.grad.len()) {
                    lemma_fx_zero(fx_div(self.val.m(), o.val.m()));
                    lemma_fx_zero(o.val.m());
                    lemma_fx_zero(self.g(i));
                    lemma_fx_zero(self.g(j));
                    lemma_fx_zero(o.g(i));
                    lemma_fx_zero(o.g(j));
                }
            }
        }
        result
    }

    /// A real power, as `exp(g ln f)`, composing this type's own
    /// logarithm, product and exponential so the joint derivatives in
    /// both operands come out of the chain rule.
    pub fn powf(&self, o: &Hessian) -> (r: Hessian)
        requires
            self.wf(),
            o.wf(),
        ensures
            r.wf(),
            r.val.m() == fx_powf(self.val.m(), o.val.m()),
            r.grad.len() == self.blen(o),
            forall|i: int|
                #[trigger] r.g(i) == ({
                    let lv = fx_ln(self.val.m());
                    let mg = mul_g_s(o.val.m(), o.g(i), lv, fx_div(self.g(i), self.val.m()));
                    fx_mul(mg, fx_exp(fx_mul(o.val.m(), lv)))
                }),
            forall|i: int, j: int|
                #[trigger] r.h(i, j) == ({
                    let v = self.val.m();
                    let lv = fx_ln(v);
                    let lgi = fx_div(self.g(i), v);
                    let lgj = fx_div(self.g(j), v);
                    let lh = fx_sub(
                        fx_div(self.h(i, j), v),
                        fx_div(fx_mul(self.g(i), self.g(j)), fx_mul(v, v)),
                    );
                    let mv = fx_mul(o.val.m(), lv);
                    let mgi = mul_g_s(o.val.m(), o.g(i), lv, lgi);
                    let mgj = mul_g_s(o.val.m(), o.g(j), lv, lgj);
                    let mh = mul_h_s(o.val.m(), o.g(i), o.g(j), o.h(i, j), lv, lgi, lgj, lh);
                    fx_mul(fx_exp(mv), fx_add(mh, fx_mul(mgi, mgj)))
                }),
    {
        let lnx: Hessian = self.ln();
        let prod: Hessian = o.mul(&lnx);
        prod.exp()
    }
}

impl Real for Hessian {
    open spec fn val_m(&self) -> int {
        self.val.m()
    }

    open spec fn wf(&self) -> bool {
        Hessian::wf(self)
    }

    fn lift(v: Fixed) -> (r: Hessian) {
        Hessian::constant(v)
    }

    fn dup(&self) -> (r: Hessian) {
        self.copy_of()
    }

    fn to_fixed(&self) -> (r: Fixed) {
        self.val
    }

    fn add(&self, o: &Hessian) -> (r: Hessian) {
        Hessian::add(self, o)
    }

    fn sub(&self, o: &Hessian) -> (r: Hessian) {
        Hessian::sub(self, o)
    }

    fn mul(&self, o: &Hessian) -> (r: Hessian) {
        Hessian::mul(self, o)
    }

    fn div(&self, o: &Hessian) -> (r: Hessian) {
        Hessian::div(self, o)
    }

    fn neg(&self) -> (r: Hessian) {
        Hessian::neg(self)
    }

    fn max(&self, o: &Hessian) -> (r: Hessian) {
        Hessian::max(self, o)
    }

    fn exp(&self) -> (r: Hessian) {
        Hessian::exp(self)
    }

    fn ln(&self) -> (r: Hessian) {
        Hessian::ln(self)
    }

    fn sqrt(&self) -> (r: Hessian) {
        Hessian::sqrt(self)
    }

    fn powi(&self, n: i32) -> (r: Hessian) {
        Hessian::powi(self, n)
    }

    fn powf(&self, n: &Hessian) -> (r: Hessian) {
        Hessian::powf(self, n)
    }

    fn norm_cdf(&self) -> (r: Hessian) {
        Hessian::norm_cdf(self)
    }
}

} // verus!
