//! The Thomas algorithm: a linear-time direct solver for tridiagonal
//! systems.
//!
//! One forward elimination pass builds the modified upper diagonal
//! and right-hand side; one back-substitution pass reads the solution
//! off.  No pivoting is performed: correctness of the *values* rests
//! on diagonal dominance of the assembled operator, while the
//! contract here pins the computed result exactly as a recurrence
//! over the saturating scalar operations, for every input.

use vstd::prelude::*;
use crate::fixed::{Fixed, fx_add, fx_sub, fx_mul, fx_div};
use crate::scalar::{Real, vals, wf_seq};

verus! {

/// Forward-elimination modified upper diagonal `c'_i`.
pub open spec fn thomas_cp(a: Seq<int>, b: Seq<int>, c: Seq<int>, i: int) -> int
    decreases i,
{
    if i <= 0 {
        fx_div(c[0], b[0])
    } else {
        fx_div(c[i], fx_sub(b[i], fx_mul(a[i], thomas_cp(a, b, c, i - 1))))
    }
}

/// Forward-elimination modified right-hand side `d'_i`.
pub open spec fn thomas_dp(a: Seq<int>, b: Seq<int>, c: Seq<int>, r: Seq<int>, i: int) -> int
    decreases i,
{
    if i <= 0 {
        fx_div(r[0], b[0])
    } else {
        fx_div(
            fx_sub(r[i], fx_mul(a[i], thomas_dp(a, b, c, r, i - 1))),
            fx_sub(b[i], fx_mul(a[i], thomas_cp(a, b, c, i - 1))),
        )
    }
}

/// Back-substituted solution component `x_i` of an `n`-row system.
pub open spec fn thomas_x(a: Seq<int>, b: Seq<int>, c: Seq<int>, r: Seq<int>, n: int, i: int) -> int
    decreases n - i,
{
    if i >= n - 1 {
        thomas_dp(a, b, c, r, n - 1)
    } else {
        fx_sub(thomas_dp(a, b, c, r, i), fx_mul(thomas_cp(a, b, c, i), thomas_x(a, b, c, r, n, i + 1)))
    }
}

/// Solve the tridiagonal system with lower diagonal `a`, main
/// diagonal `b`, upper diagonal `c` and right-hand side `r`, in one
/// forward sweep and one back substitution.  The result is pinned
/// componentwise to the Thomas recurrence over the primal values.
pub fn solve_tridiagonal<T: Real>(a: &Vec<T>, b: &Vec<T>, c: &Vec<T>, r: &Vec<T>) -> (res: Vec<T>)
    requires
        a.len() == r.len(),
        b.len() == r.len(),
        c.len() == r.len(),
        wf_seq(a@),
        wf_seq(b@),
        wf_seq(c@),
        wf_seq(r@),
    ensures
        res.len() == r.len(),
        wf_seq(res@),
        forall|i: int|
            0 <= i < res.len() ==> (#[trigger] res[i]).val_m() == thomas_x(
                vals(a@),
                vals(b@),
                vals(c@),
                vals(r@),
                r.len() as int,
                i,
            ),
{
    let n: usize = r.len();
    if n == 0 {
        return Vec::new();
    }
    let ghost sa: Seq<int> = vals(a@);
    let ghost sb: Seq<int> = vals(b@);
    let ghost sc: Seq<int> = vals(c@);
    let ghost sr: Seq<int> = vals(r@);
    let mut c_prime: Vec<T> = Vec::new();
    let mut d_prime: Vec<T> = Vec::new();
    c_prime.push(c[0].div(&b[0]));
    d_prime.push(r[0].div(&b[0]));
    let mut i: usize = 1;
    while i < n
        invariant
            1 <= i <= n,
            n == r.len(),
            a.len() == n,
            b.len() == n,
            c.len() == n,
            wf_seq(a@),
            wf_seq(b@),
            wf_seq(c@),
            wf_seq(r@),
            sa == vals(a@),
            sb == vals(b@),
            sc == vals(c@),
            sr == vals(r@),
            c_prime.len() == i,
            d_prime.len() == i,
            wf_seq(c_prime@),
            wf_seq(d_prime@),
            forall|j: int| 0 <= j < i ==> (#[trigger] c_prime[j]).val_m() == thomas_cp(sa, sb, sc, j),
            forall|j: int|
                0 <= j < i ==> (#[trigger] d_prime[j]).val_m() == thomas_dp(sa, sb, sc, sr, j),
        decreases n - i,
    {
        let m: T = b[i].sub(&a[i].mul(&c_prime[i - 1]));
        c_prime.push(c[i].div(&m));
        d_prime.push(r[i].sub(&a[i].mul(&d_prime[i - 1])).div(&m));
        i = i + 1;
    }
    let mut res: Vec<T> = Vec::new();
    let mut k: usize = 0;
    while k < n
        invariant
            0 <= k <= n,
            res.len() == k,
            wf_seq(res@),
        decreases n - k,
    {
        res.push(T::lift(Fixed::zero()));
        k = k + 1;
    }
    res.set(n - 1, d_prime[n - 1].dup());
    let mut j: usize = n - 1;
    while j > 0
        invariant
            0 <= j <= n - 1,
            n == r.len(),
            res.len() == n,
            c_prime.len() == n,
            d_prime.len() == n,
            wf_seq(res@),
            wf_seq(c_prime@),
            wf_seq(d_prime@),
            forall|t: int| 0 <= t < n ==> (#[trigger] c_prime[t]).val_m() == thomas_cp(sa, sb, sc, t),
            forall|t: int|
                0 <= t < n ==> (#[trigger] d_prime[t]).val_m() == thomas_dp(sa, sb, sc, sr, t),
            forall|t: int|
                j <= t < n ==> (#[trigger] res[t]).val_m() == thomas_x(sa, sb, sc, sr, n as int, t),
        decreases j,
    {
        j = j - 1;
        let xi: T = d_prime[j].sub(&c_prime[j].mul(&res[j + 1]));
        res.set(j, xi);
    }
    res
}

} // verus!
