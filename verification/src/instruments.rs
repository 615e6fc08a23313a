//! Instruments: what is being priced.

use vstd::prelude::*;
use crate::fixed::{Fixed, fx_clip, fx_div, SCALE};
use crate::scalar::Real;
use crate::daycount::{
    Date,
    DayCountConvention,
    DefaultPeriodCalculator,
    WeekendCalendar,
    date_valid_s,
    yf_num_s,
};
use crate::clock::today;

verus! {

/// Call or put.
#[derive(Clone, Copy, Debug, PartialEq, Eq, Structural)]
pub enum OptionType {
    /// The right to buy at the strike.
    Call,
    /// The right to sell at the strike.
    Put,
}

/// Marker for anything priceable.
pub trait Instrument {

}

/// A European-style option contract's view for a pricing engine:
/// strike, direction and time to expiry.
pub trait OptionInstrument<T: Real>: Instrument {
    /// Primal strike mantissa.
    spec fn strike_m(&self) -> int;

    /// Whether the option is a call.
    spec fn is_call_s(&self) -> bool;

    /// Primal time-to-expiry mantissa (in years).
    spec fn tte_m(&self) -> int;

    /// Structural well-formedness.
    spec fn i_wf(&self) -> bool;

    /// The strike.
    fn strike(&self) -> (r: Fixed)
        requires
            self.i_wf(),
        ensures
            r.m() == self.strike_m(),
    ;

    /// Whether the option is a call.
    fn is_call(&self) -> (r: bool)
        requires
            self.i_wf(),
        ensures
            r == self.is_call_s(),
    ;

    /// The time to expiry, in years.
    fn time_to_expiry(&self) -> (r: T)
        requires
            self.i_wf(),
        ensures
            r.wf(),
            r.val_m() == self.tte_m(),
    ;
}

/// A futures contract's view for a pricing engine.  The library
/// declares the capability for hosts to implement; nothing is
/// promised of the values an implementation hands back.
pub trait FutureInstrument<T: Real>: Instrument {
    /// Time until delivery, in years.
    fn delivery_time(&self) -> T;

    /// The quoted forward price.
    fn forward_price(&self) -> T;
}

/// The Actual/365 year fraction between two dates, as a scalar.
pub open spec fn act365_fixed_s(from: Date, to: Date) -> int {
    let num = yf_num_s(DayCountConvention::<WeekendCalendar>::Actual365Fixed, from, to);
    fx_div(fx_clip(num * (SCALE as int)), fx_clip(365 * (SCALE as int)))
}

/// An option on a future, with a valuation date from which expiry is
/// measured.
#[derive(Clone, Copy, Debug)]
pub struct FutureOption {
    /// The strike price.
    pub strike: Fixed,
    /// The expiry date.
    pub expiry: Date,
    /// Call or put.
    pub option_type: OptionType,
    /// The date the time to expiry is measured from.
    pub valuation: Date,
}

impl FutureOption {
    /// Build an option valued as of today (the clock decides the
    /// valuation date; every outcome is a valid date).
    pub fn new(strike: Fixed, expiry: Date, option_type: OptionType) -> (r: FutureOption)
        ensures
            r.strike == strike,
            r.expiry == expiry,
            r.option_type == option_type,
            date_valid_s(r.valuation),
    {
        let valuation: Date = today();
        FutureOption { strike, expiry, option_type, valuation }
    }

    /// Build an option valued as of an explicit date.
    pub fn new_at(strike: Fixed, expiry: Date, option_type: OptionType, valuation: Date) -> (r:
        FutureOption)
        ensures
            r == (FutureOption { strike, expiry, option_type, valuation }),
    {
        FutureOption { strike, expiry, option_type, valuation }
    }
}

impl Instrument for FutureOption {

}

impl<T: Real> OptionInstrument<T> for FutureOption {
    open spec fn strike_m(&self) -> int {
        self.strike.m()
    }

    open spec fn is_call_s(&self) -> bool {
        self.option_type is Call
    }

    open spec fn tte_m(&self) -> int {
        act365_fixed_s(self.valuation, self.expiry)
    }

    open spec fn i_wf(&self) -> bool {
        date_valid_s(self.valuation) && date_valid_s(self.expiry)
    }

    fn strike(&self) -> (r: Fixed) {
        self.strike
    }

    fn is_call(&self) -> (r: bool) {
        match self.option_type {
            OptionType::Call => true,
            OptionType::Put => false,
        }
    }

    fn time_to_expiry(&self) -> (r: T) {
        let calc = DefaultPeriodCalculator;
        let yf = calc.year_fraction(
            self.valuation,
            self.expiry,
            DayCountConvention::<WeekendCalendar>::Actual365Fixed,
        );
        T::lift(yf.to_fixed())
    }
}

} // verus!
