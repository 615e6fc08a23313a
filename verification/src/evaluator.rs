//! The finite-difference pricing engine.
//!
//! `evaluate` builds a log-space grid around the spot, initializes
//! the terminal payoff, assembles the implicit-Euler operator once
//! (coefficients sampled at time zero and held constant), steps
//! backward through time solving one tridiagonal system per step,
//! and finally interpolates the solution at the (log) spot.  Its
//! contract pins the produced price, for any `Real` carrier, to the
//! exact composition of those stages over the primal values.

use vstd::prelude::*;
use crate::fixed::{Fixed, fx_add, fx_sub, fx_mul, fx_div, fx_max, fx_clip, SCALE};
use crate::trans::{fx_exp, fx_ln};
use crate::scalar::{Real, vals, wf_seq};
use crate::mesher::{
    FdmLog1dMesher,
    Mesher1d,
    MesherError,
    UniformMesher1d,
    seq_increasing,
    uniform_centers,
};
use crate::operators::{TridiagonalCoeffs, bs_log_row};
use crate::solver::{solve_tridiagonal, thomas_x};
use crate::interp::{bracket_of, is_bracket, lemma_bracket_unique};
use crate::instruments::OptionInstrument;
use crate::market::{OptionMarketData, RateCurve, VolSurface};

verus! {

/// A priced result with optional first-order sensitivities.
#[derive(Clone, Copy, Debug)]
pub struct Greeks {
    /// The price.
    pub price: Fixed,
    /// Sensitivity to the spot.
    pub delta: Option<Fixed>,
    /// Second-order sensitivity to the spot.
    pub gamma: Option<Fixed>,
    /// Sensitivity to the volatility.
    pub vega: Option<Fixed>,
    /// Sensitivity to the passage of time.
    pub theta: Option<Fixed>,
}

/// A boundary treatment a host may supply for the spatial grid's two
/// ends.  The assembled operators use identity (pass-through) rows,
/// which leave whatever a treatment wrote at the boundary unchanged
/// through each solve; nothing is promised of the values an
/// implementation hands back.
pub trait BoundaryCondition<T: Real> {
    /// The value to hold at the lower boundary at time `t`.
    fn apply_lower(&self, t: &T) -> T;

    /// The value to hold at the upper boundary at time `t`, given the
    /// largest grid coordinate.
    fn apply_upper(&self, t: &T, s_max: &T) -> T;
}

/// A full evaluation result over any carrier: the price with the
/// classic first- and second-order sensitivities.
pub struct OptionEvaluation<T: Real> {
    /// The price.
    pub price: T,
    /// Sensitivity to the spot.
    pub delta: T,
    /// Second-order sensitivity to the spot.
    pub gamma: T,
    /// Sensitivity to the volatility.
    pub vega: T,
    /// Sensitivity to the passage of time.
    pub theta: T,
    /// Sensitivity to the rate.
    pub rho: T,
}

/// What a caller wants computed.
#[derive(Clone, Copy, Debug, PartialEq, Eq, Structural)]
pub enum GreekRequest {
    /// The price alone.
    Price,
    /// The price and first-order sensitivities.
    FirstOrder,
}

/// Discretization parameters for the finite-difference engine.
#[derive(Clone, Copy, Debug)]
pub struct FdmConfig {
    /// Number of spatial nodes.
    pub nodes: usize,
    /// Number of backward time steps.
    pub time_steps: usize,
    /// Reserved for damping (smoothing) start-up steps; unused by the
    /// plain implicit-Euler sweep.
    pub damping_steps: usize,
}

/// The terminal payoff at one node: `max(S - K, 0)` for a call,
/// `max(K - S, 0)` for a put.
pub open spec fn payoff_s(loc: int, k: int, is_call: bool) -> int {
    if is_call {
        fx_max(fx_sub(loc, k), 0)
    } else {
        fx_max(fx_sub(k, loc), 0)
    }
}

/// The terminal payoff over all node locations.
pub open spec fn payoff_seq_s(loc: Seq<int>, k: int, is_call: bool) -> Seq<int> {
    Seq::new(loc.len(), |i: int| payoff_s(loc[i], k, is_call))
}

/// Forward spacings derived from centers (zero at the last node).
pub open spec fn spac_hp_s(c: Seq<int>) -> Seq<int> {
    Seq::new(c.len(), |i: int| if i < c.len() - 1 {
        fx_sub(c[i + 1], c[i])
    } else {
        0
    })
}

/// Backward spacings derived from centers (zero at the first node).
pub open spec fn spac_hm_s(c: Seq<int>) -> Seq<int> {
    Seq::new(c.len(), |i: int| if i >= 1 {
        fx_sub(c[i], c[i - 1])
    } else {
        0
    })
}

/// The lower diagonal of the log-space operator (identity rows at
/// the boundary).
pub open spec fn bs_log_a_seq(hp: Seq<int>, hm: Seq<int>, r: int, sigma: int, dt: int) -> Seq<
    int,
> {
    Seq::new(hp.len(), |i: int| if 1 <= i < hp.len() - 1 {
        bs_log_row(hp[i], hm[i], r, sigma, dt).0
    } else {
        0
    })
}

/// The main diagonal of the log-space operator.
pub open spec fn bs_log_b_seq(hp: Seq<int>, hm: Seq<int>, r: int, sigma: int, dt: int) -> Seq<
    int,
> {
    Seq::new(hp.len(), |i: int| if 1 <= i < hp.len() - 1 {
        bs_log_row(hp[i], hm[i], r, sigma, dt).1
    } else {
        SCALE as int
    })
}

/// The upper diagonal of the log-space operator.
pub open spec fn bs_log_c_seq(hp: Seq<int>, hm: Seq<int>, r: int, sigma: int, dt: int) -> Seq<
    int,
> {
    Seq::new(hp.len(), |i: int| if 1 <= i < hp.len() - 1 {
        bs_log_row(hp[i], hm[i], r, sigma, dt).2
    } else {
        0
    })
}

/// One tridiagonal solve, componentwise.
pub open spec fn solve_seq_s(a: Seq<int>, b: Seq<int>, c: Seq<int>, v: Seq<int>) -> Seq<int> {
    Seq::new(v.len(), |i: int| thomas_x(a, b, c, v, v.len() as int, i))
}

/// `k` successive backward time steps from the terminal values `v`.
pub open spec fn steps_fold_s(a: Seq<int>, b: Seq<int>, c: Seq<int>, v: Seq<int>, k: nat) -> Seq<
    int,
>
    decreases k,
{
    if k == 0 {
        v
    } else {
        solve_seq_s(a, b, c, steps_fold_s(a, b, c, v, (k - 1) as nat))
    }
}

/// Linear interpolation of the grid solution at target coordinate
/// `t`: clamped at the boundaries, exact at a matching node, linear
/// between the bracketing nodes otherwise.
pub open spec fn fdm_interp_s(c: Seq<int>, v: Seq<int>, t: int) -> int {
    if t <= c[0] {
        v[0]
    } else if t >= c[c.len() - 1] {
        v[v.len() - 1]
    } else {
        let i = bracket_of(c, t);
        if c[i] == t {
            v[i]
        } else {
            let w = fx_div(fx_sub(t, c[i]), fx_sub(c[i + 1], c[i]));
            fx_add(v[i], fx_mul(w, fx_sub(v[i + 1], v[i])))
        }
    }
}

/// The full log-space finite-difference price: grid, payoff,
/// operator, `steps` backward solves, and interpolation at the log
/// spot.
pub open spec fn fdm_log_price_s(
    spot: int,
    r: int,
    sigma: int,
    strike: int,
    is_call: bool,
    tte: int,
    nodes: int,
    steps: nat,
) -> int {
    let s_min = 10_000_000int;
    let s_max = fx_mul(spot, fx_clip(5 * (SCALE as int)));
    let cs = uniform_centers(fx_ln(s_min), fx_ln(s_max), nodes);
    let hp = spac_hp_s(cs);
    let hm = spac_hm_s(cs);
    let locs = Seq::new(cs.len(), |i: int| fx_exp(cs[i]));
    let v0 = payoff_seq_s(locs, strike, is_call);
    let dt = fx_div(tte, fx_clip(steps * (SCALE as int)));
    let aa = bs_log_a_seq(hp, hm, r, sigma, dt);
    let bb = bs_log_b_seq(hp, hm, r, sigma, dt);
    let cc = bs_log_c_seq(hp, hm, r, sigma, dt);
    let vk = steps_fold_s(aa, bb, cc, v0, steps);
    fdm_interp_s(cs, vk, fx_ln(spot))
}

/// Interpolate a grid solution at a target coordinate: clamped
/// outside the grid, exact on a node, linear in between.
pub fn interpolate_grid<T: Real>(cs: &Vec<T>, v: &Vec<T>, target: &T) -> (r: T)
    requires
        cs.len() == v.len(),
        cs.len() >= 2,
        wf_seq(cs@),
        wf_seq(v@),
        seq_increasing(vals(cs@)),
        target.wf(),
    ensures
        r.wf(),
        r.val_m() == fdm_interp_s(vals(cs@), vals(v@), target.val_m()),
{
    let tf: Fixed = target.to_fixed();
    let n: usize = cs.len();
    if !cs[0].to_fixed().lt(&tf) {
        return v[0].dup();
    }
    if !tf.lt(&cs[n - 1].to_fixed()) {
        return v[n - 1].dup();
    }
    let mut lo: usize = 0;
    let mut hi: usize = n - 1;
    while hi - lo > 1
        invariant
            0 <= lo < hi < n,
            n == cs.len(),
            wf_seq(cs@),
            tf.m() == target.val_m(),
            vals(cs@)[lo as int] <= target.val_m(),
            target.val_m() < vals(cs@)[hi as int],
        decreases hi - lo,
    {
        let mid: usize = lo + (hi - lo) / 2;
        let xm: Fixed = cs[mid].to_fixed();
        proof {
            assert(xm.m() == vals(cs@)[mid as int]);
        }
        if !tf.lt(&xm) {
            lo = mid;
        } else {
            hi = mid;
        }
    }
    proof {
        assert(is_bracket(vals(cs@), target.val_m(), lo as int));
        let w = bracket_of(vals(cs@), target.val_m());
        assert(is_bracket(vals(cs@), target.val_m(), w));
        lemma_bracket_unique(vals(cs@), target.val_m(), lo as int, w);
    }
    if cs[lo].to_fixed().eq_val(&tf) {
        v[lo].dup()
    } else {
        let weight: T = target.sub(&cs[lo]).div(&cs[lo + 1].sub(&cs[lo]));
        v[lo].add(&weight.mul(&v[lo + 1].sub(&v[lo])))
    }
}

/// The finite-difference evaluator.
pub struct Evaluator {
    /// Discretization parameters.
    pub config: FdmConfig,
}

impl Evaluator {
    /// The terminal payoff vector over the mesher's actual-price
    /// locations.
    pub fn initialize_payoff<T: Real, I: OptionInstrument<T>, M: Mesher1d<T>>(
        &self,
        instrument: &I,
        mesher: &M,
    ) -> (v: Vec<T>)
        requires
            instrument.i_wf(),
            mesher.m_wf(),
        ensures
            v.len() == mesher.s_centers().len(),
            wf_seq(v@),
            forall|i: int|
                0 <= i < v.len() ==> (#[trigger] v[i]).val_m() == payoff_s(
                    mesher.s_loc()[i],
                    instrument.strike_m(),
                    instrument.is_call_s(),
                ),
    {
        proof {
            mesher.wf_facts();
        }
        let k: T = T::lift(instrument.strike());
        let zero: T = T::lift(Fixed::zero());
        let call: bool = instrument.is_call();
        let n: usize = mesher.size();
        let mut v: Vec<T> = Vec::new();
        let mut i: usize = 0;
        while i < n
            invariant
                0 <= i <= n,
                n == mesher.s_centers().len(),
                mesher.m_wf(),
                mesher.s_loc().len() == mesher.s_centers().len(),
                k.wf(),
                zero.wf(),
                k.val_m() == instrument.strike_m(),
                zero.val_m() == 0,
                call == instrument.is_call_s(),
                v.len() == i,
                wf_seq(v@),
                forall|j: int|
                    0 <= j < i ==> (#[trigger] v[j]).val_m() == payoff_s(
                        mesher.s_loc()[j],
                        instrument.strike_m(),
                        instrument.is_call_s(),
                    ),
            decreases n - i,
        {
            let s: T = mesher.location(i);
            if call {
                v.push(s.sub(&k).max(&zero));
            } else {
                v.push(k.sub(&s).max(&zero));
            }
            i = i + 1;
        }
        v
    }

    /// Interpolate the grid solution at the spot's log coordinate.
    pub fn interpolate<T: Real, M: Mesher1d<T>>(&self, mesher: &M, v: &Vec<T>, spot: &T) -> (r: T)
        requires
            mesher.m_wf(),
            v.len() == mesher.s_centers().len(),
            wf_seq(v@),
            spot.wf(),
        ensures
            r.wf(),
            r.val_m() == fdm_interp_s(mesher.s_centers(), vals(v@), fx_ln(spot.val_m())),
    {
        proof {
            mesher.wf_facts();
        }
        let target: T = spot.ln();
        interpolate_grid(mesher.centers(), v, &target)
    }

    /// Price the instrument: payoff initialization, one operator
    /// assembly, `time_steps` backward solves, interpolation at the
    /// spot.  Fails, before any solve, exactly when the requested
    /// grid cannot be built.
    pub fn evaluate<T: Real, I: OptionInstrument<T>, RC: RateCurve<T>, VS: VolSurface<T>>(
        &self,
        instrument: &I,
        market: &OptionMarketData<T, RC, VS>,
    ) -> (res: Result<T, MesherError>)
        requires
            instrument.i_wf(),
            market.wf(),
            self.config.nodes <= 0x7fff_ffff_ffff_ffff,
            self.config.time_steps <= 0x7fff_ffff_ffff_ffff,
        ensures
            ({
                let cand = uniform_centers(
                    fx_ln(10_000_000),
                    fx_ln(fx_mul(market.spot_price.val_m(), fx_clip(5 * (SCALE as int)))),
                    self.config.nodes as int,
                );
                &&& ((res matches Err(e) && e == MesherError::InsufficientPoints)
                    <==> self.config.nodes < 2)
                &&& ((res matches Err(e) && e == MesherError::NotMonotonic)
                    <==> (self.config.nodes >= 2 && !seq_increasing(cand)))
                &&& (res matches Ok(p) ==> p.wf() && p.val_m() == fdm_log_price_s(
                    market.spot_price.val_m(),
                    market.rate_curve.zr_m(0),
                    market.vol_surface.vol_m(0),
                    instrument.strike_m(),
                    instrument.is_call_s(),
                    instrument.tte_m(),
                    self.config.nodes as int,
                    self.config.time_steps as nat,
                ))
            }),
    {
        let s_min: T = T::lift(Fixed::from_mantissa(10_000_000));
        let s_max: T = market.spot_price.mul(&T::lift(Fixed::from_int(5)));
        let x_min: T = s_min.ln();
        let x_max: T = s_max.ln();
        let um: UniformMesher1d<T> = match UniformMesher1d::new(x_min, x_max, self.config.nodes) {
            Ok(m) => m,
            Err(e) => {
                return Err(e);
            },
        };
        let mesher: FdmLog1dMesher<T, UniformMesher1d<T>> = FdmLog1dMesher::new(um);
        proof {
            mesher.wf_facts();
        }
        let ghost cand: Seq<int> = mesher.s_centers();
        let mut v: Vec<T> = self.initialize_payoff(instrument, &mesher);
        proof {
            let locs = Seq::new(cand.len(), |i: int| fx_exp(cand[i]));
            assert(mesher.s_loc() =~= locs);
            assert(vals(v@) =~= payoff_seq_s(locs, instrument.strike_m(), instrument.is_call_s()));
        }
        let tte: T = instrument.time_to_expiry();
        let dt: T = T::lift(
            tte.to_fixed().div(&Fixed::from_int(self.config.time_steps as i64)),
        );
        let zero: T = T::lift(Fixed::zero());
        let r: T = market.rate_curve.zero_rate(&zero);
        let sigma: T = market.vol_surface.volatility(&zero);
        let coeffs: TridiagonalCoeffs<T> = TridiagonalCoeffs::black_scholes_log_operator(
            &mesher,
            &r,
            &sigma,
            &dt,
        );
        let ghost aa: Seq<int> = bs_log_a_seq(
            mesher.s_hp(),
            mesher.s_hm(),
            r.val_m(),
            sigma.val_m(),
            dt.val_m(),
        );
        let ghost bb: Seq<int> = bs_log_b_seq(
            mesher.s_hp(),
            mesher.s_hm(),
            r.val_m(),
            sigma.val_m(),
            dt.val_m(),
        );
        let ghost cc: Seq<int> = bs_log_c_seq(
            mesher.s_hp(),
            mesher.s_hm(),
            r.val_m(),
            sigma.val_m(),
            dt.val_m(),
        );
        proof {
            assert(vals(coeffs.a@) =~= aa);
            assert(vals(coeffs.b@) =~= bb);
            assert(vals(coeffs.c@) =~= cc);
        }
        let ghost v0: Seq<int> = vals(v@);
        let steps: usize = self.config.time_steps;
        let mut k: usize = 0;
        while k < steps
            invariant
                0 <= k <= steps,
                coeffs.a.len() == v.len(),
                coeffs.b.len() == v.len(),
                coeffs.c.len() == v.len(),
                wf_seq(coeffs.a@),
                wf_seq(coeffs.b@),
                wf_seq(coeffs.c@),
                wf_seq(v@),
                vals(coeffs.a@) == aa,
                vals(coeffs.b@) == bb,
                vals(coeffs.c@) == cc,
                v0.len() == v.len(),
                vals(v@) == steps_fold_s(aa, bb, cc, v0, k as nat),
            decreases steps - k,
        {
            let w: Vec<T> = solve_tridiagonal(&coeffs.a, &coeffs.b, &coeffs.c, &v);
            proof {
                assert(vals(w@) =~= solve_seq_s(aa, bb, cc, vals(v@)));
            }
            v = w;
            k = k + 1;
        }
        let price: T = self.interpolate(&mesher, &v, &market.spot_price);
        proof {
            let spot = market.spot_price.val_m();
            let s_max_m = fx_mul(spot, fx_clip(5 * (SCALE as int)));
            assert(s_max.val_m() == s_max_m);
            let cs = uniform_centers(fx_ln(10_000_000), fx_ln(s_max_m), self.config.nodes as int);
            assert(cand == cs);
            assert(mesher.s_hp() =~= spac_hp_s(cs));
            assert(mesher.s_hm() =~= spac_hm_s(cs));
        }
        Ok(price)
    }
}


/// The first-derivative stencil triple used by the step-by-step
/// assembly: `(lower, diag, upper)` per interior node.
pub open spec fn fd1_row_s(hp: int, hm: int) -> (int, int, int) {
    let hsum = fx_add(hp, hm);
    (
        fx_div(fx_sub(0, hp), fx_mul(hm, hsum)),
        fx_div(fx_sub(hp, hm), fx_mul(hp, hm)),
        fx_div(hm, fx_mul(hp, hsum)),
    )
}

/// The second-derivative stencil triple used by the step-by-step
/// assembly.
pub open spec fn fd2_row_s(hp: int, hm: int) -> (int, int, int) {
    let hsum = fx_add(hp, hm);
    (
        fx_div(2 * (SCALE as int), fx_mul(hm, hsum)),
        fx_div(-2 * (SCALE as int), fx_mul(hp, hm)),
        fx_div(2 * (SCALE as int), fx_mul(hp, hsum)),
    )
}

/// One assembled implicit-Euler row of the stepwise log-space system.
pub open spec fn sb_row_s(hp: int, hm: int, r: int, sigma: int, dt: int) -> (int, int, int) {
    let d1 = fd1_row_s(hp, hm);
    let d2 = fd2_row_s(hp, hm);
    let half_vol_sq = fx_mul(crate::trans::FX_HALF as int, fx_mul(sigma, sigma));
    let drift = fx_sub(r, half_vol_sq);
    let l_row = fx_add(fx_mul(half_vol_sq, d2.0), fx_mul(drift, d1.0));
    let d_row = fx_sub(fx_add(fx_mul(half_vol_sq, d2.1), fx_mul(drift, d1.1)), r);
    let u_row = fx_add(fx_mul(half_vol_sq, d2.2), fx_mul(drift, d1.2));
    (fx_mul(-dt, l_row), fx_add(SCALE as int, fx_mul(-dt, d_row)), fx_mul(-dt, u_row))
}

/// The lower diagonal of the stepwise system.
pub open spec fn sb_a_seq(hp: Seq<int>, hm: Seq<int>, r: int, sigma: int, dt: int) -> Seq<int> {
    Seq::new(hp.len(), |i: int| if 1 <= i < hp.len() - 1 {
        sb_row_s(hp[i], hm[i], r, sigma, dt).0
    } else {
        0
    })
}

/// The main diagonal of the stepwise system.
pub open spec fn sb_b_seq(hp: Seq<int>, hm: Seq<int>, r: int, sigma: int, dt: int) -> Seq<int> {
    Seq::new(hp.len(), |i: int| if 1 <= i < hp.len() - 1 {
        sb_row_s(hp[i], hm[i], r, sigma, dt).1
    } else {
        SCALE as int
    })
}

/// The upper diagonal of the stepwise system.
pub open spec fn sb_c_seq(hp: Seq<int>, hm: Seq<int>, r: int, sigma: int, dt: int) -> Seq<int> {
    Seq::new(hp.len(), |i: int| if 1 <= i < hp.len() - 1 {
        sb_row_s(hp[i], hm[i], r, sigma, dt).2
    } else {
        0
    })
}

impl Evaluator {
    /// The non-uniform central first-derivative stencils over a
    /// mesher's interior nodes (boundary entries zero).
    pub fn first_derivative_coeffs<T: Real, M: Mesher1d<T>>(&self, mesher: &M) -> (res: (
        Vec<T>,
        Vec<T>,
        Vec<T>,
    ))
        requires
            mesher.m_wf(),
        ensures
            res.0.len() == mesher.s_centers().len(),
            res.1.len() == mesher.s_centers().len(),
            res.2.len() == mesher.s_centers().len(),
            wf_seq(res.0@),
            wf_seq(res.1@),
            wf_seq(res.2@),
            forall|i: int|
                0 <= i < mesher.s_centers().len() ==> (#[trigger] res.0[i]).val_m() == if 1 <= i
                    < mesher.s_centers().len() - 1 {
                    fd1_row_s(mesher.s_hp()[i], mesher.s_hm()[i]).0
                } else {
                    0
                },
            forall|i: int|
                0 <= i < mesher.s_centers().len() ==> (#[trigger] res.1[i]).val_m() == if 1 <= i
                    < mesher.s_centers().len() - 1 {
                    fd1_row_s(mesher.s_hp()[i], mesher.s_hm()[i]).1
                } else {
                    0
                },
            forall|i: int|
                0 <= i < mesher.s_centers().len() ==> (#[trigger] res.2[i]).val_m() == if 1 <= i
                    < mesher.s_centers().len() - 1 {
                    fd1_row_s(mesher.s_hp()[i], mesher.s_hm()[i]).2
                } else {
                    0
                },
    {
        proof {
            mesher.wf_facts();
        }
        let n: usize = mesher.size();
        let hp: &Vec<T> = mesher.h_plus();
        let hm: &Vec<T> = mesher.h_minus();
        let mut l: Vec<T> = Vec::new();
        let mut d: Vec<T> = Vec::new();
        let mut u: Vec<T> = Vec::new();
        let mut i: usize = 0;
        while i < n
            invariant
                0 <= i <= n,
                n == mesher.s_centers().len(),
                hp.len() == n,
                hm.len() == n,
                vals(hp@) == mesher.s_hp(),
                vals(hm@) == mesher.s_hm(),
                wf_seq(hp@),
                wf_seq(hm@),
                l.len() == i,
                d.len() == i,
                u.len() == i,
                wf_seq(l@),
                wf_seq(d@),
                wf_seq(u@),
                forall|j: int|
                    0 <= j < i ==> (#[trigger] l[j]).val_m() == if 1 <= j < n - 1 {
                        fd1_row_s(mesher.s_hp()[j], mesher.s_hm()[j]).0
                    } else {
                        0
                    },
                forall|j: int|
                    0 <= j < i ==> (#[trigger] d[j]).val_m() == if 1 <= j < n - 1 {
                        fd1_row_s(mesher.s_hp()[j], mesher.s_hm()[j]).1
                    } else {
                        0
                    },
                forall|j: int|
                    0 <= j < i ==> (#[trigger] u[j]).val_m() == if 1 <= j < n - 1 {
                        fd1_row_s(mesher.s_hp()[j], mesher.s_hm()[j]).2
                    } else {
                        0
                    },
            decreases n - i,
        {
            if 1 <= i && i + 1 < n {
                let h_p: &T = &hp[i];
                let h_m: &T = &hm[i];
                let sum_h: T = h_p.add(h_m);
                let zero: T = T::lift(Fixed::zero());
                l.push(zero.sub(h_p).div(&h_m.mul(&sum_h)));
                d.push(h_p.sub(h_m).div(&h_p.mul(h_m)));
                u.push(h_m.div(&h_p.mul(&sum_h)));
            } else {
                l.push(T::lift(Fixed::zero()));
                d.push(T::lift(Fixed::zero()));
                u.push(T::lift(Fixed::zero()));
            }
            i = i + 1;
        }
        (l, d, u)
    }

    /// The non-uniform second-derivative stencils over a mesher's
    /// interior nodes (boundary entries zero).
    pub fn second_derivative_coeffs<T: Real, M: Mesher1d<T>>(&self, mesher: &M) -> (res: (
        Vec<T>,
        Vec<T>,
        Vec<T>,
    ))
        requires
            mesher.m_wf(),
        ensures
            res.0.len() == mesher.s_centers().len(),
            res.1.len() == mesher.s_centers().len(),
            res.2.len() == mesher.s_centers().len(),
            wf_seq(res.0@),
            wf_seq(res.1@),
            wf_seq(res.2@),
            forall|i: int|
                0 <= i < mesher.s_centers().len() ==> (#[trigger] res.0[i]).val_m() == if 1 <= i
                    < mesher.s_centers().len() - 1 {
                    fd2_row_s(mesher.s_hp()[i], mesher.s_hm()[i]).0
                } else {
                    0
                },
            forall|i: int|
                0 <= i < mesher.s_centers().len() ==> (#[trigger] res.1[i]).val_m() == if 1 <= i
                    < mesher.s_centers().len() - 1 {
                    fd2_row_s(mesher.s_hp()[i], mesher.s_hm()[i]).1
                } else {
                    0
                },
            forall|i: int|
                0 <= i < mesher.s_centers().len() ==> (#[trigger] res.2[i]).val_m() == if 1 <= i
                    < mesher.s_centers().len() - 1 {
                    fd2_row_s(mesher.s_hp()[i], mesher.s_hm()[i]).2
                } else {
                    0
                },
    {
        proof {
            mesher.wf_facts();
        }
        let n: usize = mesher.size();
        let hp: &Vec<T> = mesher.h_plus();
        let hm: &Vec<T> = mesher.h_minus();
        let mut l: Vec<T> = Vec::new();
        let mut d: Vec<T> = Vec::new();
        let mut u: Vec<T> = Vec::new();
        let mut i: usize = 0;
        while i < n
            invariant
                0 <= i <= n,
                n == mesher.s_centers().len(),
                hp.len() == n,
                hm.len() == n,
                vals(hp@) == mesher.s_hp(),
                vals(hm@) == mesher.s_hm(),
                wf_seq(hp@),
                wf_seq(hm@),
                l.len() == i,
                d.len() == i,
                u.len() == i,
                wf_seq(l@),
                wf_seq(d@),
                wf_seq(u@),
                forall|j: int|
                    0 <= j < i ==> (#[trigger] l[j]).val_m() == if 1 <= j < n - 1 {
                        fd2_row_s(mesher.s_hp()[j], mesher.s_hm()[j]).0
                    } else {
                        0
                    },
                forall|j: int|
                    0 <= j < i ==> (#[trigger] d[j]).val_m() == if 1 <= j < n - 1 {
                        fd2_row_s(mesher.s_hp()[j], mesher.s_hm()[j]).1
                    } else {
                        0
                    },
                forall|j: int|
                    0 <= j < i ==> (#[trigger] u[j]).val_m() == if 1 <= j < n - 1 {
                        fd2_row_s(mesher.s_hp()[j], mesher.s_hm()[j]).2
                    } else {
                        0
                    },
            decreases n - i,
        {
            if 1 <= i && i + 1 < n {
                let h_p: &T = &hp[i];
                let h_m: &T = &hm[i];
                let sum_h: T = h_p.add(h_m);
                let two: T = T::lift(Fixed::from_int(2));
                let neg_two: T = T::lift(Fixed::from_int(-2));
                l.push(two.div(&h_m.mul(&sum_h)));
                d.push(neg_two.div(&h_p.mul(h_m)));
                u.push(two.div(&h_p.mul(&sum_h)));
            } else {
                l.push(T::lift(Fixed::zero()));
                d.push(T::lift(Fixed::zero()));
                u.push(T::lift(Fixed::zero()));
            }
            i = i + 1;
        }
        (l, d, u)
    }

    /// One backward time step: rebuild the log-space system from the
    /// mesher's stencils and solve it against the previous solution.
    pub fn step_backwards<T: Real, RC: RateCurve<T>, VS: VolSurface<T>, M: Mesher1d<T>>(
        &self,
        v_old: &Vec<T>,
        market: &OptionMarketData<T, RC, VS>,
        mesher: &M,
        dt: &T,
    ) -> (res: Vec<T>)
        requires
            mesher.m_wf(),
            market.wf(),
            dt.wf(),
            v_old.len() == mesher.s_centers().len(),
            wf_seq(v_old@),
        ensures
            res.len() == v_old.len(),
            wf_seq(res@),
            forall|i: int|
                0 <= i < res.len() ==> (#[trigger] res[i]).val_m() == thomas_x(
                    sb_a_seq(
                        mesher.s_hp(),
                        mesher.s_hm(),
                        market.rate_curve.zr_m(0),
                        market.vol_surface.vol_m(0),
                        dt.val_m(),
                    ),
                    sb_b_seq(
                        mesher.s_hp(),
                        mesher.s_hm(),
                        market.rate_curve.zr_m(0),
                        market.vol_surface.vol_m(0),
                        dt.val_m(),
                    ),
                    sb_c_seq(
                        mesher.s_hp(),
                        mesher.s_hm(),
                        market.rate_curve.zr_m(0),
                        market.vol_surface.vol_m(0),
                        dt.val_m(),
                    ),
                    vals(v_old@),
                    v_old.len() as int,
                    i,
                ),
    {
        proof {
            mesher.wf_facts();
        }
        let zero: T = T::lift(Fixed::zero());
        let r: T = market.rate_curve.zero_rate(&zero);
        let sigma: T = market.vol_surface.volatility(&zero);
        let (l_1, d_1, u_1): (Vec<T>, Vec<T>, Vec<T>) = self.first_derivative_coeffs(mesher);
        let (l_2, d_2, u_2): (Vec<T>, Vec<T>, Vec<T>) = self.second_derivative_coeffs(mesher);
        let n: usize = mesher.centers().len();
        let mut a: Vec<T> = Vec::new();
        let mut b: Vec<T> = Vec::new();
        let mut c: Vec<T> = Vec::new();
        let half: T = T::lift(Fixed::from_mantissa(crate::trans::FX_HALF));
        let vol_sq: T = sigma.mul(&sigma);
        let half_vol_sq: T = half.mul(&vol_sq);
        let drift: T = r.sub(&half_vol_sq);
        let neg_dt: T = dt.neg();
        let ghost rm: int = market.rate_curve.zr_m(0);
        let ghost sm: int = market.vol_surface.vol_m(0);
        let mut i: usize = 0;
        while i < n
            invariant
                0 <= i <= n,
                n == mesher.s_centers().len(),
                mesher.m_wf(),
                mesher.s_hp().len() == n,
                mesher.s_hm().len() == n,
                l_1.len() == n,
                d_1.len() == n,
                u_1.len() == n,
                l_2.len() == n,
                d_2.len() == n,
                u_2.len() == n,
                wf_seq(l_1@),
                wf_seq(d_1@),
                wf_seq(u_1@),
                wf_seq(l_2@),
                wf_seq(d_2@),
                wf_seq(u_2@),
                r.wf(),
                sigma.wf(),
                dt.wf(),
                half_vol_sq.wf(),
                drift.wf(),
                neg_dt.wf(),
                r.val_m() == rm,
                sigma.val_m() == sm,
                half_vol_sq.val_m() == fx_mul(
                    crate::trans::FX_HALF as int,
                    fx_mul(sm, sm),
                ),
                drift.val_m() == fx_sub(rm, half_vol_sq.val_m()),
                neg_dt.val_m() == -dt.val_m(),
                forall|j: int|
                    0 <= j < n ==> (#[trigger] l_1[j]).val_m() == if 1 <= j < n - 1 {
                        fd1_row_s(mesher.s_hp()[j], mesher.s_hm()[j]).0
                    } else {
                        0
                    },
                forall|j: int|
                    0 <= j < n ==> (#[trigger] d_1[j]).val_m() == if 1 <= j < n - 1 {
                        fd1_row_s(mesher.s_hp()[j], mesher.s_hm()[j]).1
                    } else {
                        0
                    },
                forall|j: int|
                    0 <= j < n ==> (#[trigger] u_1[j]).val_m() == if 1 <= j < n - 1 {
                        fd1_row_s(mesher.s_hp()[j], mesher.s_hm()[j]).2
                    } else {
                        0
                    },
                forall|j: int|
                    0 <= j < n ==> (#[trigger] l_2[j]).val_m() == if 1 <= j < n - 1 {
                        fd2_row_s(mesher.s_hp()[j], mesher.s_hm()[j]).0
                    } else {
                        0
                    },
                forall|j: int|
                    0 <= j < n ==> (#[trigger] d_2[j]).val_m() == if 1 <= j < n - 1 {
                        fd2_row_s(mesher.s_hp()[j], mesher.s_hm()[j]).1
                    } else {
                        0
                    },
                forall|j: int|
                    0 <= j < n ==> (#[trigger] u_2[j]).val_m() == if 1 <= j < n - 1 {
                        fd2_row_s(mesher.s_hp()[j], mesher.s_hm()[j]).2
                    } else {
                        0
                    },
                a.len() == i,
                b.len() == i,
                c.len() == i,
                wf_seq(a@),
                wf_seq(b@),
                wf_seq(c@),
                forall|j: int|
                    0 <= j < i ==> (#[trigger] a[j]).val_m() == sb_a_seq(
                        mesher.s_hp(),
                        mesher.s_hm(),
                        rm,
                        sm,
                        dt.val_m(),
                    )[j],
                forall|j: int|
                    0 <= j < i ==> (#[trigger] b[j]).val_m() == sb_b_seq(
                        mesher.s_hp(),
                        mesher.s_hm(),
                        rm,
                        sm,
                        dt.val_m(),
                    )[j],
                forall|j: int|
                    0 <= j < i ==> (#[trigger] c[j]).val_m() == sb_c_seq(
                        mesher.s_hp(),
                        mesher.s_hm(),
                        rm,
                        sm,
                        dt.val_m(),
                    )[j],
            decreases n - i,
        {
            if 1 <= i && i + 1 < n {
                let l_row: T = half_vol_sq.mul(&l_2[i]).add(&drift.mul(&l_1[i]));
                let d_row: T = half_vol_sq.mul(&d_2[i]).add(&drift.mul(&d_1[i])).sub(&r);
                let u_row: T = half_vol_sq.mul(&u_2[i]).add(&drift.mul(&u_1[i]));
                a.push(neg_dt.mul(&l_row));
                b.push(T::lift(Fixed::one()).add(&neg_dt.mul(&d_row)));
                c.push(neg_dt.mul(&u_row));
            } else {
                a.push(T::lift(Fixed::zero()));
                b.push(T::lift(Fixed::one()));
                c.push(T::lift(Fixed::zero()));
            }
            i = i + 1;
        }
        let res: Vec<T> = solve_tridiagonal(&a, &b, &c, v_old);
        proof {
            assert(vals(a@) =~= sb_a_seq(mesher.s_hp(), mesher.s_hm(), rm, sm, dt.val_m()));
            assert(vals(b@) =~= sb_b_seq(mesher.s_hp(), mesher.s_hm(), rm, sm, dt.val_m()));
            assert(vals(c@) =~= sb_c_seq(mesher.s_hp(), mesher.s_hm(), rm, sm, dt.val_m()));
        }
        res
    }
}

} // verus!
