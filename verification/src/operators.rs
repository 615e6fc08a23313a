//! Tridiagonal operator assembly for the pricing equation.
//!
//! Both builders discretize the backward equation
//! `dV/dt + diffusion * D2 + drift * D1 - r * V = 0` with implicit
//! Euler on a (possibly non-uniform) grid.  The natural-space variant
//! recomputes the price-dependent drift `r * S` and diffusion
//! `sigma^2 * S^2 / 2` per node; the log-space variant's coefficients
//! are constant across nodes, which is what the coordinate transform
//! buys.  Boundary rows are identity (a Dirichlet pass-through).

use vstd::prelude::*;
use crate::fixed::{Fixed, fx_add, fx_sub, fx_mul, fx_div, SCALE};
use crate::trans::FX_HALF;
use crate::scalar::{Real, vals, wf_seq};
use crate::mesher::Mesher1d;

verus! {

/// Non-uniform central first-derivative stencil `(lower, diag, upper)`
/// for backward spacing `hm` and forward spacing `hp`.
pub open spec fn d1_stencil(hp: int, hm: int) -> (int, int, int) {
    let hsum = fx_add(hp, hm);
    (
        fx_div(-hp, fx_mul(hm, hsum)),
        fx_div(fx_sub(hp, hm), fx_mul(hm, hp)),
        fx_div(hm, fx_mul(hp, hsum)),
    )
}

/// Non-uniform second-derivative stencil `(lower, diag, upper)`.
pub open spec fn d2_stencil(hp: int, hm: int) -> (int, int, int) {
    let hsum = fx_add(hp, hm);
    (
        fx_div(2 * (SCALE as int), fx_mul(hm, hsum)),
        fx_div(-2 * (SCALE as int), fx_mul(hm, hp)),
        fx_div(2 * (SCALE as int), fx_mul(hp, hsum)),
    )
}

/// One interior row of the log-space implicit-Euler system, from the
/// node's spacings and the constant log-space coefficients: drift
/// `r - sigma^2/2`, diffusion `sigma^2/2`, row `I - dt * L`.
pub open spec fn bs_log_row(hp: int, hm: int, r: int, sigma: int, dt: int) -> (int, int, int) {
    let half_vol_sq = fx_mul(FX_HALF as int, fx_mul(sigma, sigma));
    let drift = fx_sub(r, half_vol_sq);
    let d1 = d1_stencil(hp, hm);
    let d2 = d2_stencil(hp, hm);
    let l_row = fx_add(fx_mul(half_vol_sq, d2.0), fx_mul(drift, d1.0));
    let d_row = fx_sub(fx_add(fx_mul(half_vol_sq, d2.1), fx_mul(drift, d1.1)), r);
    let u_row = fx_add(fx_mul(half_vol_sq, d2.2), fx_mul(drift, d1.2));
    (fx_mul(-dt, l_row), fx_add(SCALE as int, fx_mul(-dt, d_row)), fx_mul(-dt, u_row))
}

/// One interior row of the natural-space implicit-Euler system at a
/// node with previous center `sm`, own center `s` and next center
/// `sp`: drift `r * S`, diffusion `sigma^2 S^2 / 2`, row `I - dt * L`.
pub open spec fn bs_nat_row(sm: int, s: int, sp: int, r: int, sigma: int, dt: int) -> (
    int,
    int,
    int,
) {
    let hm = fx_sub(s, sm);
    let hp = fx_sub(sp, s);
    let d1 = d1_stencil(hp, hm);
    let d2 = d2_stencil(hp, hm);
    let half_vol_sq = fx_mul(FX_HALF as int, fx_mul(sigma, sigma));
    let drift = fx_mul(r, s);
    let diffusion = fx_mul(half_vol_sq, fx_mul(s, s));
    let l_row = fx_add(fx_mul(diffusion, d2.0), fx_mul(drift, d1.0));
    let d_row = fx_sub(fx_add(fx_mul(diffusion, d2.1), fx_mul(drift, d1.1)), r);
    let u_row = fx_add(fx_mul(diffusion, d2.2), fx_mul(drift, d1.2));
    (-fx_mul(dt, l_row), fx_sub(SCALE as int, fx_mul(dt, d_row)), -fx_mul(dt, u_row))
}

/// The three diagonals of one tridiagonal operator.
pub struct TridiagonalCoeffs<T: Real> {
    /// Lower diagonal.
    pub a: Vec<T>,
    /// Main diagonal.
    pub b: Vec<T>,
    /// Upper diagonal.
    pub c: Vec<T>,
}

/// The three diagonals have length `n`, identity boundary rows, and
/// well-formed entries.
pub open spec fn tridiag_frame<T: Real>(tc: &TridiagonalCoeffs<T>, n: int) -> bool {
    &&& tc.a.len() == n
    &&& tc.b.len() == n
    &&& tc.c.len() == n
    &&& wf_seq(tc.a@)
    &&& wf_seq(tc.b@)
    &&& wf_seq(tc.c@)
    &&& n >= 2 ==> {
        &&& tc.a[0].val_m() == 0
        &&& tc.b[0].val_m() == SCALE as int
        &&& tc.c[0].val_m() == 0
        &&& tc.a[n - 1].val_m() == 0
        &&& tc.b[n - 1].val_m() == SCALE as int
        &&& tc.c[n - 1].val_m() == 0
    }
}

impl<T: Real> TridiagonalCoeffs<T> {
    /// Assemble the natural-space Black-Scholes implicit-Euler
    /// operator over the given grid of price centers.
    pub fn black_scholes_operator(grid: &Vec<T>, r: &T, sigma: &T, dt: &T) -> (tc:
        TridiagonalCoeffs<T>)
        requires
            wf_seq(grid@),
            r.wf(),
            sigma.wf(),
            dt.wf(),
        ensures
            tridiag_frame(&tc, grid.len() as int),
            forall|i: int|
                1 <= i < grid.len() - 1 ==> (#[trigger] tc.a[i]).val_m() == bs_nat_row(
                    vals(grid@)[i - 1],
                    vals(grid@)[i],
                    vals(grid@)[i + 1],
                    r.val_m(),
                    sigma.val_m(),
                    dt.val_m(),
                ).0,
            forall|i: int|
                1 <= i < grid.len() - 1 ==> (#[trigger] tc.b[i]).val_m() == bs_nat_row(
                    vals(grid@)[i - 1],
                    vals(grid@)[i],
                    vals(grid@)[i + 1],
                    r.val_m(),
                    sigma.val_m(),
                    dt.val_m(),
                ).1,
            forall|i: int|
                1 <= i < grid.len() - 1 ==> (#[trigger] tc.c[i]).val_m() == bs_nat_row(
                    vals(grid@)[i - 1],
                    vals(grid@)[i],
                    vals(grid@)[i + 1],
                    r.val_m(),
                    sigma.val_m(),
                    dt.val_m(),
                ).2,
    {
        let n: usize = grid.len();
        let mut a: Vec<T> = Vec::new();
        let mut b: Vec<T> = Vec::new();
        let mut c: Vec<T> = Vec::new();
        let mut k: usize = 0;
        while k < n
            invariant
                0 <= k <= n,
                a.len() == k,
                b.len() == k,
                c.len() == k,
                wf_seq(a@),
                wf_seq(b@),
                wf_seq(c@),
                forall|j: int| 0 <= j < k ==> (#[trigger] a[j]).val_m() == 0,
                forall|j: int| 0 <= j < k ==> (#[trigger] b[j]).val_m() == SCALE as int,
                forall|j: int| 0 <= j < k ==> (#[trigger] c[j]).val_m() == 0,
            decreases n - k,
        {
            a.push(T::lift(Fixed::zero()));
            b.push(T::lift(Fixed::one()));
            c.push(T::lift(Fixed::zero()));
            k = k + 1;
        }
        let half: T = T::lift(Fixed::from_mantissa(FX_HALF));
        let vol_sq: T = sigma.mul(sigma);
        let half_vol_sq: T = half.mul(&vol_sq);
        if n < 2 {
            return TridiagonalCoeffs { a, b, c };
        }
        let mut i: usize = 1;
        while i < n - 1
            invariant
                1 <= i <= n - 1,
                n == grid.len(),
                n >= 2,
                wf_seq(grid@),
                r.wf(),
                sigma.wf(),
                dt.wf(),
                half_vol_sq.wf(),
                half_vol_sq.val_m() == fx_mul(
                    FX_HALF as int,
                    fx_mul(sigma.val_m(), sigma.val_m()),
                ),
                a.len() == n,
                b.len() == n,
                c.len() == n,
                wf_seq(a@),
                wf_seq(b@),
                wf_seq(c@),
                a[0].val_m() == 0,
                b[0].val_m() == SCALE as int,
                c[0].val_m() == 0,
                n >= 2 ==> a[n - 1].val_m() == 0 && b[n - 1].val_m() == SCALE as int && c[n
                    - 1].val_m() == 0,
                forall|j: int|
                    1 <= j < i && j < n - 1 ==> (#[trigger] a[j]).val_m() == bs_nat_row(
                        vals(grid@)[j - 1],
                        vals(grid@)[j],
                        vals(grid@)[j + 1],
                        r.val_m(),
                        sigma.val_m(),
                        dt.val_m(),
                    ).0,
                forall|j: int|
                    1 <= j < i && j < n - 1 ==> (#[trigger] b[j]).val_m() == bs_nat_row(
                        vals(grid@)[j - 1],
                        vals(grid@)[j],
                        vals(grid@)[j + 1],
                        r.val_m(),
                        sigma.val_m(),
                        dt.val_m(),
                    ).1,
                forall|j: int|
                    1 <= j < i && j < n - 1 ==> (#[trigger] c[j]).val_m() == bs_nat_row(
                        vals(grid@)[j - 1],
                        vals(grid@)[j],
                        vals(grid@)[j + 1],
                        r.val_m(),
                        sigma.val_m(),
                        dt.val_m(),
                    ).2,
            decreases n - 1 - i,
        {
            let s: &T = &grid[i];
            let h_minus: T = s.sub(&grid[i - 1]);
            let h_plus: T = grid[i + 1].sub(s);
            let h_sum: T = h_plus.add(&h_minus);
            let d1_l: T = h_plus.neg().div(&h_minus.mul(&h_sum));
            let d1_m: T = h_plus.sub(&h_minus).div(&h_minus.mul(&h_plus));
            let d1_u: T = h_minus.div(&h_plus.mul(&h_sum));
            let two: T = T::lift(Fixed::from_int(2));
            let neg_two: T = T::lift(Fixed::from_int(-2));
            let d2_l: T = two.div(&h_minus.mul(&h_sum));
            let d2_m: T = neg_two.div(&h_minus.mul(&h_plus));
            let d2_u: T = two.div(&h_plus.mul(&h_sum));
            let drift: T = r.mul(s);
            let diffusion: T = half_vol_sq.mul(&s.mul(s));
            let l_row: T = diffusion.mul(&d2_l).add(&drift.mul(&d1_l));
            let d_row: T = diffusion.mul(&d2_m).add(&drift.mul(&d1_m)).sub(r);
            let u_row: T = diffusion.mul(&d2_u).add(&drift.mul(&d1_u));
            a.set(i, dt.mul(&l_row).neg());
            b.set(i, T::lift(Fixed::one()).sub(&dt.mul(&d_row)));
            c.set(i, dt.mul(&u_row).neg());
            i = i + 1;
        }
        TridiagonalCoeffs { a, b, c }
    }

    /// Assemble the log-space Black-Scholes implicit-Euler operator
    /// from a mesher's spacings.  Drift and diffusion are constant in
    /// log-space, so they are computed once.
    pub fn black_scholes_log_operator<M: Mesher1d<T>>(mesher: &M, r: &T, sigma: &T, dt: &T) -> (tc:
        TridiagonalCoeffs<T>)
        requires
            mesher.m_wf(),
            r.wf(),
            sigma.wf(),
            dt.wf(),
        ensures
            tridiag_frame(&tc, mesher.s_centers().len() as int),
            forall|i: int|
                1 <= i < mesher.s_centers().len() - 1 ==> (#[trigger] tc.a[i]).val_m() == bs_log_row(
                    mesher.s_hp()[i],
                    mesher.s_hm()[i],
                    r.val_m(),
                    sigma.val_m(),
                    dt.val_m(),
                ).0,
            forall|i: int|
                1 <= i < mesher.s_centers().len() - 1 ==> (#[trigger] tc.b[i]).val_m() == bs_log_row(
                    mesher.s_hp()[i],
                    mesher.s_hm()[i],
                    r.val_m(),
                    sigma.val_m(),
                    dt.val_m(),
                ).1,
            forall|i: int|
                1 <= i < mesher.s_centers().len() - 1 ==> (#[trigger] tc.c[i]).val_m() == bs_log_row(
                    mesher.s_hp()[i],
                    mesher.s_hm()[i],
                    r.val_m(),
                    sigma.val_m(),
                    dt.val_m(),
                ).2,
    {
        proof {
            mesher.wf_facts();
        }
        let n: usize = mesher.size();
        let hp: &Vec<T> = mesher.h_plus();
        let hm: &Vec<T> = mesher.h_minus();
        let mut a: Vec<T> = Vec::new();
        let mut b: Vec<T> = Vec::new();
        let mut c: Vec<T> = Vec::new();
        let mut k: usize = 0;
        while k < n
            invariant
                0 <= k <= n,
                a.len() == k,
                b.len() == k,
                c.len() == k,
                wf_seq(a@),
                wf_seq(b@),
                wf_seq(c@),
                forall|j: int| 0 <= j < k ==> (#[trigger] a[j]).val_m() == 0,
                forall|j: int| 0 <= j < k ==> (#[trigger] b[j]).val_m() == SCALE as int,
                forall|j: int| 0 <= j < k ==> (#[trigger] c[j]).val_m() == 0,
            decreases n - k,
        {
            a.push(T::lift(Fixed::zero()));
            b.push(T::lift(Fixed::one()));
            c.push(T::lift(Fixed::zero()));
            k = k + 1;
        }
        let half: T = T::lift(Fixed::from_mantissa(FX_HALF));
        let vol_sq: T = sigma.mul(sigma);
        let half_vol_sq: T = half.mul(&vol_sq);
        let drift: T = r.sub(&half_vol_sq);
        let neg_dt: T = dt.neg();
        if n < 2 {
            return TridiagonalCoeffs { a, b, c };
        }
        let mut i: usize = 1;
        while i < n - 1
            invariant
                1 <= i <= n - 1,
                n == mesher.s_centers().len(),
                n >= 2,
                hp.len() == n,
                hm.len() == n,
                vals(hp@) == mesher.s_hp(),
                vals(hm@) == mesher.s_hm(),
                wf_seq(hp@),
                wf_seq(hm@),
                r.wf(),
                sigma.wf(),
                dt.wf(),
                half_vol_sq.wf(),
                drift.wf(),
                neg_dt.wf(),
                half_vol_sq.val_m() == fx_mul(
                    FX_HALF as int,
                    fx_mul(sigma.val_m(), sigma.val_m()),
                ),
                drift.val_m() == fx_sub(r.val_m(), half_vol_sq.val_m()),
                neg_dt.val_m() == -dt.val_m(),
                a.len() == n,
                b.len() == n,
                c.len() == n,
                wf_seq(a@),
                wf_seq(b@),
                wf_seq(c@),
                a[0].val_m() == 0,
                b[0].val_m() == SCALE as int,
                c[0].val_m() == 0,
                n >= 2 ==> a[n - 1].val_m() == 0 && b[n - 1].val_m() == SCALE as int && c[n
                    - 1].val_m() == 0,
                forall|j: int|
                    1 <= j < i && j < n - 1 ==> (#[trigger] a[j]).val_m() == bs_log_row(
                        mesher.s_hp()[j],
                        mesher.s_hm()[j],
                        r.val_m(),
                        sigma.val_m(),
                        dt.val_m(),
                    ).0,
                forall|j: int|
                    1 <= j < i && j < n - 1 ==> (#[trigger] b[j]).val_m() == bs_log_row(
                        mesher.s_hp()[j],
                        mesher.s_hm()[j],
                        r.val_m(),
                        sigma.val_m(),
                        dt.val_m(),
                    ).1,
                forall|j: int|
                    1 <= j < i && j < n - 1 ==> (#[trigger] c[j]).val_m() == bs_log_row(
                        mesher.s_hp()[j],
                        mesher.s_hm()[j],
                        r.val_m(),
                        sigma.val_m(),
                        dt.val_m(),
                    ).2,
            decreases n - 1 - i,
        {
            let h_p: &T = &hp[i];
            let h_m: &T = &hm[i];
            let h_sum: T = h_p.add(h_m);
            let d1_l: T = h_p.neg().div(&h_m.mul(&h_sum));
            let d1_m: T = h_p.sub(h_m).div(&h_m.mul(h_p));
            let d1_u: T = h_m.div(&h_p.mul(&h_sum));
            let two: T = T::lift(Fixed::from_int(2));
            let neg_two: T = T::lift(Fixed::from_int(-2));
            let d2_l: T = two.div(&h_m.mul(&h_sum));
            let d2_m: T = neg_two.div(&h_m.mul(h_p));
            let d2_u: T = two.div(&h_p.mul(&h_sum));
            let l_row: T = half_vol_sq.mul(&d2_l).add(&drift.mul(&d1_l));
            let d_row: T = half_vol_sq.mul(&d2_m).add(&drift.mul(&d1_m)).sub(r);
            let u_row: T = half_vol_sq.mul(&d2_u).add(&drift.mul(&d1_u));
            a.set(i, neg_dt.mul(&l_row));
            b.set(i, T::lift(Fixed::one()).add(&neg_dt.mul(&d_row)));
            c.set(i, neg_dt.mul(&u_row));
            i = i + 1;
        }
        TridiagonalCoeffs { a, b, c }
    }
}

} // verus!
