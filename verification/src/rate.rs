//! Interest rates, compounding conventions and discount factors.

use vstd::prelude::*;
use crate::fixed::{Fixed, fx_add, fx_sub, fx_mul, fx_div, fx_clip, SCALE};
use crate::trans::{fx_exp, fx_ln, fx_powf};
use crate::scalar::Real;
use crate::daycount::{DayCountConvention, WeekendCalendar};

verus! {

/// How interest accrues over time.
#[derive(Clone, Copy, Debug, PartialEq, Eq, Structural)]
pub enum Compounding {
    /// Linear accrual: `1 + r t`.
    Simple,
    /// Periodic compounding at the rate's frequency.
    Compounded,
    /// Continuous compounding: `exp(r t)`.
    Continuous,
    /// Linear up to one year, compounded beyond.
    SimpleThenCompounded,
}

/// How many times per year interest compounds.
#[derive(Clone, Copy, Debug, PartialEq, Eq, Structural)]
pub enum Frequency {
    /// Once a year.
    Annual,
    /// Twice a year.
    SemiAnnual,
    /// Four times a year.
    Quarterly,
    /// Twelve times a year.
    Monthly,
    /// A single payment.
    Once,
    /// Continuous limit.
    Infinite,
}

/// Compounding periods per year (`0` for a single payment, `-1` for
/// the continuous limit).
pub open spec fn freq_per_year_s(f: Frequency) -> int {
    match f {
        Frequency::Annual => 1,
        Frequency::SemiAnnual => 2,
        Frequency::Quarterly => 4,
        Frequency::Monthly => 12,
        Frequency::Once => 0,
        Frequency::Infinite => -1,
    }
}

impl Frequency {
    /// Compounding periods per year.
    pub fn per_year(&self) -> (r: i64)
        ensures
            r as int == freq_per_year_s(*self),
    {
        match *self {
            Frequency::Annual => 1,
            Frequency::SemiAnnual => 2,
            Frequency::Quarterly => 4,
            Frequency::Monthly => 12,
            Frequency::Once => 0,
            Frequency::Infinite => -1,
        }
    }
}

/// Discount factor under periodic compounding:
/// `1 / (1 + r/f)^(f t)`.
pub open spec fn df_compounded_s(freq: int, r: int, t: int) -> int {
    let f = fx_clip(freq * (SCALE as int));
    let base = fx_add(SCALE as int, fx_div(r, f));
    let expn = fx_mul(f, t);
    fx_div(SCALE as int, fx_powf(base, expn))
}

/// Discount factor under simple accrual: `1 / (1 + r t)`.
pub open spec fn df_simple_s(r: int, t: int) -> int {
    fx_div(SCALE as int, fx_add(SCALE as int, fx_mul(r, t)))
}

/// The discount factor a rate `r` assigns to horizon `t` under the
/// given compounding convention and frequency.
pub open spec fn df_s(comp: Compounding, freq: int, r: int, t: int) -> int {
    match comp {
        Compounding::Simple => df_simple_s(r, t),
        Compounding::Continuous => fx_exp(-fx_mul(r, t)),
        Compounding::Compounded => df_compounded_s(freq, r, t),
        Compounding::SimpleThenCompounded => if t <= SCALE as int {
            df_simple_s(r, t)
        } else {
            df_compounded_s(freq, r, t)
        },
    }
}

/// Anything that can discount a cash flow at a horizon.
pub trait Discountable<T: Real> {
    /// The discount factor at primal horizon `t`.
    spec fn df_m(&self, t: int) -> int;

    /// Structural well-formedness.
    spec fn d_wf(&self) -> bool;

    /// Compute the discount factor for horizon `t`.
    fn discount_factor(&self, t: &T) -> (r: T)
        requires
            self.d_wf(),
            t.wf(),
        ensures
            r.wf(),
            r.val_m() == self.df_m(t.val_m()),
    ;
}

/// The product of two scalars.
fn k_mul<T: Real>(a: &T, b: &T) -> (r: T)
    requires
        a.wf(),
        b.wf(),
    ensures
        r.wf(),
        r.val_m() == fx_mul(a.val_m(), b.val_m()),
{
    a.mul(b)
}

/// A quoted interest rate with its conventions.
#[derive(Clone, Copy, Debug)]
pub struct InterestRate<T: Real> {
    /// The rate itself.
    pub value: T,
    /// The day-count convention the rate is quoted under.
    pub convention: DayCountConvention<WeekendCalendar>,
    /// The compounding convention.
    pub compounding: Compounding,
    /// The compounding frequency.
    pub frequency: Frequency,
}

impl<T: Real> Discountable<T> for InterestRate<T> {
    open spec fn df_m(&self, t: int) -> int {
        df_s(self.compounding, freq_per_year_s(self.frequency), self.value.val_m(), t)
    }

    open spec fn d_wf(&self) -> bool {
        self.value.wf()
    }

    fn discount_factor(&self, t: &T) -> (r: T) {
        let one: T = T::lift(Fixed::one());
        match self.compounding {
            Compounding::Simple => one.div(&one.add(&k_mul(&self.value, t))),
            Compounding::Continuous => self.value.mul(t).neg().exp(),
            Compounding::Compounded => {
                let f: T = T::lift(Fixed::from_int(self.frequency.per_year()));
                let base: T = one.add(&self.value.div(&f));
                let expn: T = f.mul(t);
                one.div(&base.powf(&expn))
            },
            Compounding::SimpleThenCompounded => {
                if t.to_fixed().le(&Fixed::one()) {
                    one.div(&one.add(&k_mul(&self.value, t)))
                } else {
                    let f: T = T::lift(Fixed::from_int(self.frequency.per_year()));
                    let base: T = one.add(&self.value.div(&f));
                    let expn: T = f.mul(t);
                    one.div(&base.powf(&expn))
                }
            },
        }
    }
}

/// The rate implied by a discount factor under a convention:
/// inverting the corresponding discounting formula.
pub open spec fn implied_rate_s(comp: Compounding, freq: int, df: int, t: int) -> int {
    match comp {
        Compounding::Simple => fx_div(fx_sub(fx_div(SCALE as int, df), SCALE as int), t),
        Compounding::Continuous => fx_div(-fx_ln(df), t),
        Compounding::Compounded => implied_compounded_s(freq, df, t),
        Compounding::SimpleThenCompounded => if t <= SCALE as int {
            fx_div(fx_sub(fx_div(SCALE as int, df), SCALE as int), t)
        } else {
            implied_compounded_s(freq, df, t)
        },
    }
}

/// The periodically compounded rate implied by a discount factor:
/// `f ((1/df)^(1/(f t)) - 1)`.
pub open spec fn implied_compounded_s(freq: int, df: int, t: int) -> int {
    let f = fx_clip(freq * (SCALE as int));
    fx_mul(
        f,
        fx_sub(
            fx_powf(fx_div(SCALE as int, df), fx_div(SCALE as int, fx_mul(f, t))),
            SCALE as int,
        ),
    )
}

impl InterestRate<Fixed> {
    /// Recover the rate a discount factor implies at horizon `t`.
    pub fn implied_rate(
        df: Fixed,
        t: Fixed,
        compounding: Compounding,
        frequency: Frequency,
        convention: DayCountConvention<WeekendCalendar>,
    ) -> (r: InterestRate<Fixed>)
        ensures
            r.value.m() == implied_rate_s(compounding, freq_per_year_s(frequency), df.m(), t.m()),
            r.compounding == compounding,
            r.frequency == frequency,
    {
        let one: Fixed = Fixed::one();
        let value: Fixed = match compounding {
            Compounding::Simple => one.div(&df).sub(&one).div(&t),
            Compounding::Continuous => df.ln().neg().div(&t),
            Compounding::Compounded => {
                let f: Fixed = Fixed::from_int(frequency.per_year());
                f.mul(&one.div(&df).powf(&one.div(&f.mul(&t))).sub(&one))
            },
            Compounding::SimpleThenCompounded => {
                if t.le(&one) {
                    one.div(&df).sub(&one).div(&t)
                } else {
                    let f: Fixed = Fixed::from_int(frequency.per_year());
                    f.mul(&one.div(&df).powf(&one.div(&f.mul(&t))).sub(&one))
                }
            },
        };
        InterestRate { value, convention, compounding, frequency }
    }
}

} // verus!
