//! Saturating fixed-point scalars.
//!
//! A [`Fixed`] holds a signed mantissa at scale `SCALE` (nine decimal
//! places).  Arithmetic is total: results round toward zero and
//! saturate at the largest representable magnitude, so no operation
//! panics and every operation has an exact specification over the
//! mantissa, given by the `fx_*` spec functions.

use vstd::prelude::*;

verus! {

/// Mantissa units per 1.0.
pub const SCALE: i64 = 1_000_000_000;

/// Largest representable mantissa; the smallest is its negation.
pub const FX_MAX: i64 = i64::MAX;

/// Saturate a mantissa into the representable (symmetric) range.
pub open spec fn fx_clip(x: int) -> int {
    if x > FX_MAX as int {
        FX_MAX as int
    } else if x < -(FX_MAX as int) {
        -(FX_MAX as int)
    } else {
        x
    }
}

/// Magnitude of an integer.
pub open spec fn fx_abs(x: int) -> int {
    if x >= 0 {
        x
    } else {
        -x
    }
}

/// Division rounding toward zero, for a positive divisor.
pub open spec fn fx_tdiv(a: int, b: int) -> int {
    if a >= 0 {
        a / b
    } else {
        -((-a) / b)
    }
}

/// Division rounding toward zero, for any nonzero divisor.
pub open spec fn fx_tdiv2(a: int, b: int) -> int {
    if b >= 0 {
        fx_tdiv(a, b)
    } else {
        fx_tdiv(-a, -b)
    }
}

/// Saturating mantissa addition.
pub open spec fn fx_add(a: int, b: int) -> int {
    fx_clip(a + b)
}

/// Saturating mantissa subtraction.
pub open spec fn fx_sub(a: int, b: int) -> int {
    fx_clip(a - b)
}

/// Saturating mantissa product: `a * b` rescaled, rounded toward zero.
pub open spec fn fx_mul(a: int, b: int) -> int {
    fx_clip(fx_tdiv(a * b, SCALE as int))
}

/// Saturating mantissa quotient: `a / b` rescaled, rounded toward
/// zero.  Division by zero saturates with the sign of the dividend.
pub open spec fn fx_div(a: int, b: int) -> int {
    if b == 0 {
        if a > 0 {
            FX_MAX as int
        } else if a < 0 {
            -(FX_MAX as int)
        } else {
            0
        }
    } else {
        fx_clip(fx_tdiv2(a * (SCALE as int), b))
    }
}

/// The larger of two mantissas.
pub open spec fn fx_max(a: int, b: int) -> int {
    if a >= b {
        a
    } else {
        b
    }
}

/// A saturating fixed-point number: `raw / SCALE`.
#[derive(Clone, Copy, Debug, PartialEq, Eq, Structural, Hash)]
pub struct Fixed {
    raw: i64,
}

impl Fixed {
    /// The mantissa, as a mathematical integer.
    pub closed spec fn m(self) -> int {
        self.raw as int
    }

    #[verifier::type_invariant]
    spec fn type_inv(self) -> bool {
        -(FX_MAX as int) <= self.raw as int <= FX_MAX as int
    }

    /// Build a value from a raw mantissa (saturating `i64::MIN`).
    pub fn from_mantissa(raw: i64) -> (r: Fixed)
        ensures
            r.m() == fx_clip(raw as int),
    {
        if raw == i64::MIN {
            Fixed { raw: -FX_MAX }
        } else {
            Fixed { raw }
        }
    }

    /// The mantissa as an executable integer.
    pub fn mantissa(&self) -> (r: i64)
        ensures
            r as int == self.m(),
    {
        proof {
            use_type_invariant(self);
        }
        self.raw
    }

    /// The integer `v`, scaled.
    pub fn from_int(v: i64) -> (r: Fixed)
        ensures
            r.m() == fx_clip(v * (SCALE as int)),
    {
        let neg: bool = v < 0;
        let mag: u128 = if v >= 0 {
            v as u128
        } else if v == i64::MIN {
            9_223_372_036_854_775_808u128
        } else {
            (-v) as u128
        };
        proof {
            lemma_mul_le(mag as int, SCALE as int, 0x8000_0000_0000_0000, SCALE as int);
        }
        let prod: u128 = mag * (SCALE as u128);
        proof {
            assert(prod == fx_abs(v as int) * (SCALE as int));
            assert(fx_abs((v as int) * (SCALE as int)) == fx_abs(v as int) * (SCALE as int))
                by (nonlinear_arith);
        }
        Self::from_signed_mag(neg, prod)
    }

    /// Zero.
    pub fn zero() -> (r: Fixed)
        ensures
            r.m() == 0,
    {
        Fixed { raw: 0 }
    }

    /// One.
    pub fn one() -> (r: Fixed)
        ensures
            r.m() == SCALE as int,
    {
        Fixed { raw: SCALE }
    }

    /// Assemble a value from a sign and a magnitude, saturating.
    fn from_signed_mag(neg: bool, mag: u128) -> (r: Fixed)
        ensures
            r.m() == fx_clip(if neg { -(mag as int) } else { mag as int }),
    {
        let capped: u128 = if mag > FX_MAX as u128 {
            FX_MAX as u128
        } else {
            mag
        };
        if neg {
            Fixed { raw: -((capped as i64)) }
        } else {
            Fixed { raw: capped as i64 }
        }
    }

    /// Magnitude of the mantissa, as unsigned.
    fn mag(&self) -> (r: u128)
        ensures
            r as int == fx_abs(self.m()),
    {
        proof {
            use_type_invariant(self);
        }
        if self.raw >= 0 {
            self.raw as u128
        } else {
            (-self.raw) as u128
        }
    }

    /// Saturating addition.
    pub fn add(&self, o: &Fixed) -> (r: Fixed)
        ensures
            r.m() == fx_add(self.m(), o.m()),
    {
        proof {
            use_type_invariant(self);
            use_type_invariant(o);
        }
        let s: i128 = self.raw as i128 + o.raw as i128;
        if s > FX_MAX as i128 {
            Fixed { raw: FX_MAX }
        } else if s < -(FX_MAX as i128) {
            Fixed { raw: -FX_MAX }
        } else {
            Fixed { raw: s as i64 }
        }
    }

    /// Saturating subtraction.
    pub fn sub(&self, o: &Fixed) -> (r: Fixed)
        ensures
            r.m() == fx_sub(self.m(), o.m()),
    {
        proof {
            use_type_invariant(self);
            use_type_invariant(o);
        }
        let s: i128 = self.raw as i128 - o.raw as i128;
        if s > FX_MAX as i128 {
            Fixed { raw: FX_MAX }
        } else if s < -(FX_MAX as i128) {
            Fixed { raw: -FX_MAX }
        } else {
            Fixed { raw: s as i64 }
        }
    }

    /// Negation (exact: the range is symmetric).
    pub fn neg(&self) -> (r: Fixed)
        ensures
            r.m() == -self.m(),
    {
        proof {
            use_type_invariant(self);
        }
        Fixed { raw: -self.raw }
    }

    /// Saturating product, rounded toward zero.
    pub fn mul(&self, o: &Fixed) -> (r: Fixed)
        ensures
            r.m() == fx_mul(self.m(), o.m()),
    {
        proof {
            use_type_invariant(self);
            use_type_invariant(o);
        }
        let neg: bool = (self.raw < 0) != (o.raw < 0);
        let ma: u128 = self.mag();
        let mb: u128 = o.mag();
        proof {
            lemma_mul_le(ma as int, mb as int, FX_MAX as int, FX_MAX as int);
        }
        let prod: u128 = ma * mb;
        let q: u128 = prod / (SCALE as u128);
        proof {
            lemma_abs_mul(self.m(), o.m());
            lemma_tdiv_abs(self.m() * o.m(), SCALE as int);
            assert(q as int == fx_abs(fx_tdiv(self.m() * o.m(), SCALE as int)));
            lemma_mul_sign(self.m(), o.m());
        }
        Self::from_signed_mag(neg, q)
    }

    /// Saturating quotient, rounded toward zero; division by zero
    /// saturates with the sign of the dividend.
    pub fn div(&self, o: &Fixed) -> (r: Fixed)
        ensures
            r.m() == fx_div(self.m(), o.m()),
    {
        proof {
            use_type_invariant(self);
            use_type_invariant(o);
        }
        if o.raw == 0 {
            if self.raw > 0 {
                Fixed { raw: FX_MAX }
            } else if self.raw < 0 {
                Fixed { raw: -FX_MAX }
            } else {
                Fixed { raw: 0 }
            }
        } else {
            let neg: bool = (self.raw < 0) != (o.raw < 0);
            let ma: u128 = self.mag();
            proof {
                lemma_mul_le(ma as int, SCALE as int, FX_MAX as int, SCALE as int);
            }
            let num: u128 = ma * (SCALE as u128);
            let q: u128 = num / o.mag();
            proof {
                let a = self.m();
                let b = o.m();
                assert(fx_abs(a * (SCALE as int)) == fx_abs(a) * (SCALE as int))
                    by (nonlinear_arith);
                lemma_tdiv2_abs(a * (SCALE as int), b);
                assert(q as int == fx_abs(fx_tdiv2(a * (SCALE as int), b)));
                lemma_mul_sign(a, SCALE as int);
                lemma_tdiv2_sign(a * (SCALE as int), b);
            }
            Self::from_signed_mag(neg, q)
        }
    }

    /// The larger value (by mantissa).
    pub fn max(&self, o: &Fixed) -> (r: Fixed)
        ensures
            r.m() == fx_max(self.m(), o.m()),
            r == if self.m() >= o.m() { *self } else { *o },
    {
        proof {
            use_type_invariant(self);
            use_type_invariant(o);
        }
        if self.raw >= o.raw {
            *self
        } else {
            *o
        }
    }

    /// Magnitude.
    pub fn abs(&self) -> (r: Fixed)
        ensures
            r.m() == fx_abs(self.m()),
    {
        proof {
            use_type_invariant(self);
        }
        if self.raw >= 0 {
            *self
        } else {
            Fixed { raw: -self.raw }
        }
    }

    /// Strictly less, by value.
    pub fn lt(&self, o: &Fixed) -> (r: bool)
        ensures
            r == (self.m() < o.m()),
    {
        proof {
            use_type_invariant(self);
            use_type_invariant(o);
        }
        self.raw < o.raw
    }

    /// Less or equal, by value.
    pub fn le(&self, o: &Fixed) -> (r: bool)
        ensures
            r == (self.m() <= o.m()),
    {
        proof {
            use_type_invariant(self);
            use_type_invariant(o);
        }
        self.raw <= o.raw
    }

    /// Equal, by value.
    pub fn eq_val(&self, o: &Fixed) -> (r: bool)
        ensures
            r == (self.m() == o.m()),
    {
        proof {
            use_type_invariant(self);
            use_type_invariant(o);
        }
        self.raw == o.raw
    }
}

/// Zero is absorbing for saturating products and quotients.
pub broadcast proof fn lemma_fx_zero(x: int)
    ensures
        #[trigger] fx_mul(0, x) == 0,
        #[trigger] fx_mul(x, 0) == 0,
        #[trigger] fx_div(0, x) == 0,
{
    assert(0 * x == 0) by (nonlinear_arith);
    assert(x * 0 == 0) by (nonlinear_arith);
    if x != 0 {
        if x >= 0 {
            assert(0int / x == 0) by (nonlinear_arith)
                requires
                    x > 0,
            ;
        } else {
            assert(0int / (-x) == 0) by (nonlinear_arith)
                requires
                    -x > 0,
            ;
        }
    }
}

/// Products of bounded nonnegative factors are bounded.
pub(crate) proof fn lemma_mul_le(a: int, b: int, c: int, d: int)
    requires
        0 <= a <= c,
        0 <= b <= d,
    ensures
        a * b <= c * d,
{
    assert(a * b <= c * d) by (nonlinear_arith)
        requires
            0 <= a <= c,
            0 <= b <= d,
    ;
}

proof fn lemma_abs_mul(a: int, b: int)
    ensures
        fx_abs(a * b) == fx_abs(a) * fx_abs(b),
{
    assert(fx_abs(a * b) == fx_abs(a) * fx_abs(b)) by (nonlinear_arith);
}

/// The sign of a product: nonnegative when the signs agree.
proof fn lemma_mul_sign(a: int, b: int)
    ensures
        ((a < 0) != (b < 0)) ==> a * b <= 0,
        ((a < 0) == (b < 0)) ==> a * b >= 0,
        (a * b == 0) == (a == 0 || b == 0),
{
    assert(((a < 0) != (b < 0)) ==> a * b <= 0) by (nonlinear_arith);
    assert(((a < 0) == (b < 0)) ==> a * b >= 0) by (nonlinear_arith);
    assert((a * b == 0) == (a == 0 || b == 0)) by (nonlinear_arith);
}

/// Truncating division commutes with magnitude (positive divisor).
proof fn lemma_tdiv_abs(a: int, b: int)
    requires
        b > 0,
    ensures
        fx_abs(fx_tdiv(a, b)) == fx_abs(a) / b,
        a >= 0 ==> fx_tdiv(a, b) >= 0,
        a < 0 ==> fx_tdiv(a, b) <= 0,
{
    if a >= 0 {
        assert(a / b >= 0) by (nonlinear_arith)
            requires
                a >= 0,
                b > 0,
        ;
    } else {
        assert((-a) / b >= 0) by (nonlinear_arith)
            requires
                a < 0,
                b > 0,
        ;
    }
}

/// Truncating division commutes with magnitude (nonzero divisor).
proof fn lemma_tdiv2_abs(a: int, b: int)
    requires
        b != 0,
    ensures
        fx_abs(fx_tdiv2(a, b)) == fx_abs(a) / fx_abs(b),
{
    if b >= 0 {
        lemma_tdiv_abs(a, b);
    } else {
        lemma_tdiv_abs(-a, -b);
    }
}

/// The sign of a truncating quotient follows the signs of the operands.
proof fn lemma_tdiv2_sign(a: int, b: int)
    requires
        b != 0,
    ensures
        ((a < 0) == (b < 0)) ==> fx_tdiv2(a, b) >= 0,
        ((a < 0) != (b < 0)) ==> fx_tdiv2(a, b) <= 0,
{
    if b >= 0 {
        lemma_tdiv_abs(a, b);
    } else {
        lemma_tdiv_abs(-a, -b);
    }
}

} // verus!
