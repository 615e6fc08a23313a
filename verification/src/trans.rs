//! Transcendental functions on [`Fixed`] values.
//!
//! `exp` combines an integer power of `e` with a truncated Taylor
//! series on the fractional part; `ln` normalises into `[1, 2)` by
//! powers of two and sums the inverse-hyperbolic-tangent series;
//! `sqrt` is the exact integer square root of the rescaled mantissa;
//! the normal distribution functions follow the Abramowitz-Stegun
//! polynomial approximation of the error function.  Each function's
//! contract states exactly which value it computes, as a recurrence
//! over the `fx_*` operations.

use vstd::prelude::*;
use crate::fixed::{Fixed, SCALE, FX_MAX, fx_clip, fx_abs, fx_tdiv, fx_add, fx_sub, fx_mul, fx_div, lemma_mul_le};

verus! {

/// Mantissa of Euler's number `e`.
pub const FX_E: i64 = 2_718_281_828;

/// Mantissa of `ln 2`.
pub const FX_LN2: i64 = 693_147_181;

/// Mantissa of `sqrt 2`.
pub const FX_SQRT2: i64 = 1_414_213_562;

/// Mantissa of `sqrt(2 pi)`.
pub const FX_SQRT_2PI: i64 = 2_506_628_275;

/// Mantissa of one half.
pub const FX_HALF: i64 = 500_000_000;

/// Abramowitz-Stegun error-function fit: scale parameter.
pub const ERF_P: i64 = 327_591_100;

/// Abramowitz-Stegun error-function fit: degree-one coefficient.
pub const ERF_A1: i64 = 254_829_592;

/// Abramowitz-Stegun error-function fit: degree-two coefficient.
pub const ERF_A2: i64 = -284_496_736;

/// Abramowitz-Stegun error-function fit: degree-three coefficient.
pub const ERF_A3: i64 = 1_421_413_741;

/// Abramowitz-Stegun error-function fit: degree-four coefficient.
pub const ERF_A4: i64 = -1_453_152_027;

/// Abramowitz-Stegun error-function fit: degree-five coefficient.
pub const ERF_A5: i64 = 1_061_405_429;

/// `x` raised to the nonnegative integer power `n`, by repeated
/// saturating multiplication.
pub open spec fn fx_powi_pos(x: int, n: nat) -> int
    decreases n,
{
    if n == 0 {
        SCALE as int
    } else {
        fx_mul(fx_powi_pos(x, (n - 1) as nat), x)
    }
}

/// `x` raised to any integer power; negative powers go through the
/// saturating reciprocal.
pub open spec fn fx_powi(x: int, n: int) -> int {
    if n >= 0 {
        fx_powi_pos(x, n as nat)
    } else {
        fx_div(SCALE as int, fx_powi_pos(x, (-n) as nat))
    }
}

/// Term `j` of the exponential series: `r^j / j!`, accumulated with
/// saturating operations.
pub open spec fn fx_exp_term(r: int, j: nat) -> int
    decreases j,
{
    if j == 0 {
        SCALE as int
    } else {
        fx_div(fx_mul(fx_exp_term(r, (j - 1) as nat), r), fx_clip(j * (SCALE as int)))
    }
}

/// Partial sum of the exponential series through term `j`.
pub open spec fn fx_exp_sum(r: int, j: nat) -> int
    decreases j,
{
    if j == 0 {
        SCALE as int
    } else {
        fx_add(fx_exp_sum(r, (j - 1) as nat), fx_exp_term(r, j))
    }
}

/// The exponential: saturates above `24`, vanishes below `-24`, and
/// otherwise multiplies an integer power of `e` by the 20-term series
/// on the fractional part.
pub open spec fn fx_exp(x: int) -> int {
    if x >= 24 * (SCALE as int) {
        FX_MAX as int
    } else if x <= -24 * (SCALE as int) {
        0
    } else {
        let k = fx_tdiv(x, SCALE as int);
        let r = x - k * (SCALE as int);
        let ek = if k >= 0 {
            fx_powi_pos(FX_E as int, k as nat)
        } else {
            fx_div(SCALE as int, fx_powi_pos(FX_E as int, (-k) as nat))
        };
        fx_mul(ek, fx_exp_sum(r, 20))
    }
}

/// Odd-power term of the `artanh` series: `z^(2j+1)`, divided by
/// `2j+1` when summed.
pub open spec fn fx_ln_term(z: int, j: nat) -> int
    decreases j,
{
    if j == 0 {
        z
    } else {
        fx_mul(fx_ln_term(z, (j - 1) as nat), fx_mul(z, z))
    }
}

/// Partial sum of the `artanh` series through term `j`.
pub open spec fn fx_ln_sum(z: int, j: nat) -> int
    decreases j,
{
    if j == 0 {
        z
    } else {
        fx_add(fx_ln_sum(z, (j - 1) as nat), fx_div(fx_ln_term(z, j), fx_clip((2 * j + 1) * (SCALE as int))))
    }
}

/// Logarithm of a mantissa normalised into `[SCALE, 2 * SCALE)`:
/// `2 * artanh((v - 1) / (v + 1))` by a 13-term series.
pub open spec fn fx_ln_core(v: int) -> int {
    let z = fx_div(fx_sub(v, SCALE as int), fx_add(v, SCALE as int));
    fx_mul(2 * (SCALE as int), fx_ln_sum(z, 12))
}

/// The logarithm of a mantissa below `SCALE`: double up and subtract
/// `ln 2` at each level.
pub open spec fn fx_ln_up(v: int) -> int
    decreases 2 * (SCALE as int) - v,
        when 1 <= v && v < 2 * (SCALE as int)
{
    if v >= SCALE as int {
        fx_ln_core(v)
    } else {
        fx_sub(fx_ln_up(2 * v), FX_LN2 as int)
    }
}

/// The logarithm of a mantissa at or above `SCALE`: halve down and
/// add `ln 2` at each level.
pub open spec fn fx_ln_down(v: int) -> int
    decreases v,
        when SCALE as int <= v
{
    if v < 2 * (SCALE as int) {
        fx_ln_core(v)
    } else {
        fx_add(fx_ln_down(v / 2), FX_LN2 as int)
    }
}

/// The logarithm: nonpositive arguments saturate negatively; others
/// are normalised by powers of two, each worth one `ln 2`.
pub open spec fn fx_ln(x: int) -> int {
    if x <= 0 {
        -(FX_MAX as int)
    } else if x < SCALE as int {
        fx_ln_up(x)
    } else {
        fx_ln_down(x)
    }
}

/// A real power, through the identity `x^n = exp(n * ln x)`, which
/// also fixes how derivatives propagate through both operands.
pub open spec fn fx_powf(x: int, n: int) -> int {
    fx_exp(fx_mul(n, fx_ln(x)))
}

/// `r` is the integer square root of `v`.
pub open spec fn is_isqrt(v: int, r: int) -> bool {
    0 <= r && r * r <= v && v < (r + 1) * (r + 1)
}

/// The square root: zero on nonpositive arguments, otherwise the
/// integer square root of the rescaled mantissa.
pub open spec fn fx_sqrt(x: int) -> int {
    if x <= 0 {
        0
    } else {
        choose|r: int| #[trigger] is_isqrt(x * (SCALE as int), r)
    }
}

/// The error function, by the Abramowitz-Stegun degree-five fit on
/// the magnitude, extended as an odd function.
pub open spec fn fx_erf(y: int) -> int {
    let ay = fx_abs(y);
    let t = fx_div(SCALE as int, fx_add(SCALE as int, fx_mul(ERF_P as int, ay)));
    let poly = fx_mul(
        fx_add(
            fx_mul(
                fx_add(
                    fx_mul(
                        fx_add(fx_mul(fx_add(fx_mul(ERF_A5 as int, t), ERF_A4 as int), t), ERF_A3 as int),
                        t,
                    ),
                    ERF_A2 as int,
                ),
                t,
            ),
            ERF_A1 as int,
        ),
        t,
    );
    let e = fx_exp(-fx_mul(ay, ay));
    let r0 = fx_sub(SCALE as int, fx_mul(poly, e));
    if y >= 0 {
        r0
    } else {
        -r0
    }
}

/// The standard normal cumulative distribution:
/// `(1 + erf(x / sqrt 2)) / 2`.
pub open spec fn fx_norm_cdf(x: int) -> int {
    fx_mul(FX_HALF as int, fx_add(SCALE as int, fx_erf(fx_div(x, FX_SQRT2 as int))))
}

/// The standard normal density: `exp(-x^2 / 2) / sqrt(2 pi)`.
pub open spec fn fx_norm_pdf(x: int) -> int {
    fx_div(fx_exp(-fx_mul(fx_mul(x, x), FX_HALF as int)), FX_SQRT_2PI as int)
}

impl Fixed {
    /// Raise to a nonnegative integer power by repeated multiplication.
    fn powi_pos_u(&self, n: u64) -> (r: Fixed)
        ensures
            r.m() == fx_powi_pos(self.m(), n as nat),
    {
        let mut acc: Fixed = Fixed::one();
        let mut i: u64 = 0;
        while i < n
            invariant
                0 <= i <= n,
                acc.m() == fx_powi_pos(self.m(), i as nat),
            decreases n - i,
        {
            acc = acc.mul(self);
            i = i + 1;
        }
        acc
    }

    /// Raise to an integer power; a negative power is the saturating
    /// reciprocal of the positive one.
    pub fn powi(&self, n: i64) -> (r: Fixed)
        ensures
            r.m() == fx_powi(self.m(), n as int),
    {
        if n >= 0 {
            self.powi_pos_u(n as u64)
        } else {
            let mag: u64 = if n == i64::MIN {
                9_223_372_036_854_775_808u64
            } else {
                (-n) as u64
            };
            Fixed::one().div(&self.powi_pos_u(mag))
        }
    }

    /// The 20-term exponential series on a fractional argument.
    fn exp_series(&self) -> (r: Fixed)
        ensures
            r.m() == fx_exp_sum(self.m(), 20),
    {
        let mut term: Fixed = Fixed::one();
        let mut acc: Fixed = Fixed::one();
        let mut j: u64 = 0;
        while j < 20
            invariant
                0 <= j <= 20,
                term.m() == fx_exp_term(self.m(), j as nat),
                acc.m() == fx_exp_sum(self.m(), j as nat),
            decreases 20 - j,
        {
            let jj: u64 = j + 1;
            term = term.mul(self).div(&Fixed::from_int(jj as i64));
            acc = acc.add(&term);
            j = jj;
        }
        acc
    }

    /// The saturating exponential.
    pub fn exp(&self) -> (r: Fixed)
        ensures
            r.m() == fx_exp(self.m()),
    {
        let m: i64 = self.mantissa();
        if m >= 24 * SCALE {
            Fixed::from_mantissa(FX_MAX)
        } else if m <= -24 * SCALE {
            Fixed::zero()
        } else {
            let neg: bool = m < 0;
            let ma: u64 = if neg {
                (-m) as u64
            } else {
                m as u64
            };
            let kk: u64 = ma / (SCALE as u64);
            let rr: u64 = ma % (SCALE as u64);
            proof {
                vstd::arithmetic::div_mod::lemma_fundamental_div_mod(ma as int, SCALE as int);
                assert(ma == kk * (SCALE as int) + rr);
                if neg {
                    assert(fx_tdiv(m as int, SCALE as int) == -(kk as int));
                    assert(m as int - (-(kk as int)) * (SCALE as int) == -(rr as int));
                } else {
                    assert(fx_tdiv(m as int, SCALE as int) == kk as int);
                    assert(m as int - (kk as int) * (SCALE as int) == rr as int);
                }
            }
            let e: Fixed = Fixed::from_mantissa(FX_E);
            let ek: Fixed = if neg {
                Fixed::one().div(&e.powi_pos_u(kk))
            } else {
                e.powi_pos_u(kk)
            };
            let rfix: Fixed = if neg {
                Fixed::from_mantissa(-(rr as i64))
            } else {
                Fixed::from_mantissa(rr as i64)
            };
            ek.mul(&rfix.exp_series())
        }
    }

    /// The 13-term `artanh` series used by the logarithm.
    fn ln_series(&self) -> (r: Fixed)
        ensures
            r.m() == fx_ln_sum(self.m(), 12),
    {
        let z2: Fixed = self.mul(self);
        let mut term: Fixed = *self;
        let mut acc: Fixed = *self;
        let mut j: u64 = 0;
        while j < 12
            invariant
                0 <= j <= 12,
                z2.m() == fx_mul(self.m(), self.m()),
                term.m() == fx_ln_term(self.m(), j as nat),
                acc.m() == fx_ln_sum(self.m(), j as nat),
            decreases 12 - j,
        {
            let jj: u64 = j + 1;
            term = term.mul(&z2);
            acc = acc.add(&term.div(&Fixed::from_int((2 * jj) as i64 + 1)));
            j = jj;
        }
        acc
    }

    /// The logarithm of a mantissa normalised into `[SCALE, 2 * SCALE)`.
    fn ln_core_fn(v: i64) -> (r: Fixed)
        requires
            SCALE as int <= v as int,
            (v as int) < 2 * (SCALE as int),
        ensures
            r.m() == fx_ln_core(v as int),
    {
        let vf: Fixed = Fixed::from_mantissa(v);
        let z: Fixed = vf.sub(&Fixed::one()).div(&vf.add(&Fixed::one()));
        Fixed::from_int(2).mul(&z.ln_series())
    }

    /// Logarithm of a small positive mantissa, by doubling up.
    fn ln_up_fn(v: u64) -> (r: Fixed)
        requires
            1 <= v as int,
            (v as int) < 2 * (SCALE as int),
        ensures
            r.m() == fx_ln_up(v as int),
        decreases 2 * (SCALE as int) - v as int,
    {
        if v >= SCALE as u64 {
            Self::ln_core_fn(v as i64)
        } else {
            Self::ln_up_fn(2 * v).sub(&Fixed::from_mantissa(FX_LN2))
        }
    }

    /// Logarithm of a large mantissa, by halving down.
    fn ln_down_fn(v: u64) -> (r: Fixed)
        requires
            SCALE as int <= v as int,
        ensures
            r.m() == fx_ln_down(v as int),
        decreases v,
    {
        if v < 2 * (SCALE as u64) {
            Self::ln_core_fn(v as i64)
        } else {
            Self::ln_down_fn(v / 2).add(&Fixed::from_mantissa(FX_LN2))
        }
    }

    /// The saturating logarithm.
    pub fn ln(&self) -> (r: Fixed)
        ensures
            r.m() == fx_ln(self.m()),
    {
        let m: i64 = self.mantissa();
        if m <= 0 {
            Fixed::from_mantissa(-FX_MAX)
        } else if m < SCALE {
            Self::ln_up_fn(m as u64)
        } else {
            Self::ln_down_fn(m as u64)
        }
    }

    /// A real power, as `exp(n * ln x)`.
    pub fn powf(&self, n: &Fixed) -> (r: Fixed)
        ensures
            r.m() == fx_powf(self.m(), n.m()),
    {
        n.mul(&self.ln()).exp()
    }

    /// The square root (zero on nonpositive arguments).
    pub fn sqrt(&self) -> (r: Fixed)
        ensures
            r.m() == fx_sqrt(self.m()),
    {
        let m: i64 = self.mantissa();
        if m <= 0 {
            Fixed::zero()
        } else {
            proof {
                lemma_mul_le(m as int, SCALE as int, FX_MAX as int, SCALE as int);
            }
            let v: u128 = (m as u128) * (SCALE as u128);
            let mut lo: u128 = 0;
            let mut hi: u128 = 140_737_488_355_328u128;
            proof {
                assert((hi as int) * (hi as int) > v as int) by (nonlinear_arith)
                    requires
                        hi == 140_737_488_355_328u128,
                        v as int <= (FX_MAX as int) * (SCALE as int),
                ;
            }
            while hi - lo > 1
                invariant
                    lo < hi,
                    hi <= 140_737_488_355_328u128,
                    (lo as int) * (lo as int) <= v as int,
                    (hi as int) * (hi as int) > v as int,
                decreases hi - lo,
            {
                let mid: u128 = lo + (hi - lo) / 2;
                proof {
                    lemma_mul_le(mid as int, mid as int, hi as int, hi as int);
                    lemma_mul_le(hi as int, hi as int, 140_737_488_355_328, 140_737_488_355_328);
                }
                if mid * mid <= v {
                    lo = mid;
                } else {
                    hi = mid;
                }
            }
            proof {
                assert(is_isqrt(v as int, lo as int));
                let w = choose|r: int| is_isqrt(v as int, r);
                assert(is_isqrt(v as int, w));
                lemma_isqrt_unique(v as int, lo as int, w);
            }
            Fixed::from_mantissa(lo as i64)
        }
    }

    /// The error function.
    pub fn erf(&self) -> (r: Fixed)
        ensures
            r.m() == fx_erf(self.m()),
    {
        let ay: Fixed = self.abs();
        let p: Fixed = Fixed::from_mantissa(ERF_P);
        let t: Fixed = Fixed::one().div(&Fixed::one().add(&p.mul(&ay)));
        let a1: Fixed = Fixed::from_mantissa(ERF_A1);
        let a2: Fixed = Fixed::from_mantissa(ERF_A2);
        let a3: Fixed = Fixed::from_mantissa(ERF_A3);
        let a4: Fixed = Fixed::from_mantissa(ERF_A4);
        let a5: Fixed = Fixed::from_mantissa(ERF_A5);
        let poly: Fixed = a5.mul(&t).add(&a4).mul(&t).add(&a3).mul(&t).add(&a2).mul(&t).add(&a1).mul(&t);
        let e: Fixed = ay.mul(&ay).neg().exp();
        let r0: Fixed = Fixed::one().sub(&poly.mul(&e));
        if self.lt(&Fixed::zero()) {
            r0.neg()
        } else {
            r0
        }
    }

    /// The standard normal cumulative distribution function.
    pub fn norm_cdf(&self) -> (r: Fixed)
        ensures
            r.m() == fx_norm_cdf(self.m()),
    {
        let s2: Fixed = Fixed::from_mantissa(FX_SQRT2);
        let half: Fixed = Fixed::from_mantissa(FX_HALF);
        half.mul(&Fixed::one().add(&self.div(&s2).erf()))
    }

    /// The standard normal probability density function.
    pub fn norm_pdf(&self) -> (r: Fixed)
        ensures
            r.m() == fx_norm_pdf(self.m()),
    {
        let half: Fixed = Fixed::from_mantissa(FX_HALF);
        let s2pi: Fixed = Fixed::from_mantissa(FX_SQRT_2PI);
        self.mul(self).mul(&half).neg().exp().div(&s2pi)
    }
}

/// Integer square roots are unique.
proof fn lemma_isqrt_unique(v: int, a: int, b: int)
    requires
        is_isqrt(v, a),
        is_isqrt(v, b),
    ensures
        a == b,
{
    assert(a == b) by (nonlinear_arith)
        requires
            0 <= a && a * a <= v && v < (a + 1) * (a + 1),
            0 <= b && b * b <= v && v < (b + 1) * (b + 1),
    ;
}

} // verus!
