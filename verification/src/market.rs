//! Market data: rate curves, volatility surfaces and their bundles.

use vstd::prelude::*;
use crate::fixed::{Fixed, fx_clip, fx_div, SCALE};
use crate::scalar::{Real, vals, wf_seq};
use crate::rate::{Compounding, Discountable, Frequency, InterestRate, df_s, freq_per_year_s};
use crate::interp::{Interpolator1D, InterpolationError, LinearInterpolator, lin_interp_s};
use crate::mesher::seq_increasing;
use crate::daycount::{
    Date,
    DayCountConvention,
    DefaultPeriodCalculator,
    WeekendCalendar,
    date_valid_s,
    yf_den_s,
    yf_num_s,
};
use crate::tenor::{Tenor, tenor_advance_s};
use crate::error::CurveError;

verus! {

/// A zero-rate curve: rates and discount factors by horizon.
pub trait RateCurve<T: Real> {
    /// The primal zero rate at primal horizon `t`.
    spec fn zr_m(&self, t: int) -> int;

    /// The primal discount factor at primal horizon `t`.
    spec fn df_m(&self, t: int) -> int;

    /// Structural well-formedness.
    spec fn c_wf(&self) -> bool;

    /// The zero rate for horizon `t`.
    fn zero_rate(&self, t: &T) -> (r: T)
        requires
            self.c_wf(),
            t.wf(),
        ensures
            r.wf(),
            r.val_m() == self.zr_m(t.val_m()),
    ;

    /// The discount factor for horizon `t`.
    fn discount_factor(&self, t: &T) -> (r: T)
        requires
            self.c_wf(),
            t.wf(),
        ensures
            r.wf(),
            r.val_m() == self.df_m(t.val_m()),
    ;
}

/// A volatility surface: implied volatility by horizon.
pub trait VolSurface<T: Real> {
    /// The primal volatility at primal horizon `t`.
    spec fn vol_m(&self, t: int) -> int;

    /// Structural well-formedness.
    spec fn v_wf(&self) -> bool;

    /// The volatility for horizon `t`.
    fn volatility(&self, t: &T) -> (r: T)
        requires
            self.v_wf(),
            t.wf(),
        ensures
            r.wf(),
            r.val_m() == self.vol_m(t.val_m()),
    ;
}

/// A curve quoting one rate at every horizon.
#[derive(Clone, Copy, Debug)]
pub struct FlatRateCurve<T: Real> {
    rate: InterestRate<T>,
}

impl<T: Real> FlatRateCurve<T> {
    /// Wrap a quoted rate as a flat curve.
    pub fn new(rate: InterestRate<T>) -> (r: FlatRateCurve<T>)
        ensures
            r.quoted() == rate,
    {
        FlatRateCurve { rate }
    }

    /// The quoted rate.
    pub closed spec fn quoted(&self) -> InterestRate<T> {
        self.rate
    }
}

impl<T: Real> RateCurve<T> for FlatRateCurve<T> {
    open spec fn zr_m(&self, t: int) -> int {
        self.quoted().value.val_m()
    }

    open spec fn df_m(&self, t: int) -> int {
        df_s(
            self.quoted().compounding,
            freq_per_year_s(self.quoted().frequency),
            self.quoted().value.val_m(),
            t,
        )
    }

    open spec fn c_wf(&self) -> bool {
        self.quoted().value.wf()
    }

    fn zero_rate(&self, t: &T) -> (r: T) {
        self.rate.value.dup()
    }

    fn discount_factor(&self, t: &T) -> (r: T) {
        self.rate.discount_factor(t)
    }
}

/// A flat curve quoted with continuous compounding, so that the
/// discount factor is `exp(-r t)`.
#[derive(Clone, Copy, Debug)]
pub struct ContinuousRateCurve<T: Real> {
    rate: InterestRate<T>,
}

impl<T: Real> ContinuousRateCurve<T> {
    /// Wrap a raw rate value; the compounding is continuous.
    pub fn new(value: T) -> (r: ContinuousRateCurve<T>)
        ensures
            r.quoted().value == value,
            r.quoted().compounding == Compounding::Continuous,
            r.quoted().frequency == Frequency::Infinite,
    {
        ContinuousRateCurve {
            rate: InterestRate {
                value,
                compounding: Compounding::Continuous,
                frequency: Frequency::Infinite,
                convention: DayCountConvention::Actual365Fixed,
            },
        }
    }

    /// The quoted rate.
    pub closed spec fn quoted(&self) -> InterestRate<T> {
        self.rate
    }
}

impl<T: Real> RateCurve<T> for ContinuousRateCurve<T> {
    open spec fn zr_m(&self, t: int) -> int {
        self.quoted().value.val_m()
    }

    open spec fn df_m(&self, t: int) -> int {
        df_s(
            self.quoted().compounding,
            freq_per_year_s(self.quoted().frequency),
            self.quoted().value.val_m(),
            t,
        )
    }

    open spec fn c_wf(&self) -> bool {
        self.quoted().value.wf()
    }

    fn zero_rate(&self, t: &T) -> (r: T) {
        self.rate.value.dup()
    }

    fn discount_factor(&self, t: &T) -> (r: T) {
        self.rate.discount_factor(t)
    }
}

/// The year-fraction abscissa a tenor contributes to a curve built
/// as of `refd` under `conv`.
pub open spec fn tenor_abscissa_s<C: crate::daycount::Calendar>(
    refd: Date,
    t: Tenor,
    conv: DayCountConvention<C>,
) -> int {
    let end = tenor_advance_s(t, refd);
    fx_div(
        fx_clip(yf_num_s(conv, refd, end) * (SCALE as int)),
        fx_clip(yf_den_s(conv) * (SCALE as int)),
    )
}

/// The preconditions under which a tenor can be advanced from a
/// reference date.
pub open spec fn tenor_pre_s(t: Tenor, refd: Date) -> bool {
    match t {
        Tenor::Months(n) => -120_000 <= n <= 120_000 && -2_000_000_000 <= refd.year
            <= 2_000_000_000,
        Tenor::Years(n) => -10_000 <= n <= 10_000 && -2_000_000_000 <= refd.year <= 2_000_000_000,
        _ => true,
    }
}

/// A curve interpolating quoted rates across tenors.
#[derive(Debug)]
pub struct InterpolatedRateCurve<T: Real> {
    reference_date: Date,
    tenors: Vec<Tenor>,
    rates: Vec<InterestRate<T>>,
    interpolator: LinearInterpolator<T>,
}

impl<T: Real> InterpolatedRateCurve<T> {
    /// The interpolation abscissae (year fractions).
    pub closed spec fn xs(&self) -> Seq<int> {
        self.interpolator.xs()
    }

    /// The interpolation ordinates (rate values).
    pub closed spec fn ys(&self) -> Seq<int> {
        self.interpolator.ys()
    }

    /// The conventions the discounting inherits from the first quote.
    pub closed spec fn first_quote(&self) -> InterestRate<T> {
        self.rates[0]
    }

    /// Build a curve from tenors and quoted rates as of a reference
    /// date.  Fails when the lists disagree in length or the implied
    /// year fractions do not strictly increase.
    pub fn new(
        reference_date: Date,
        tenors: Vec<Tenor>,
        rates: Vec<InterestRate<T>>,
        calculator: &DefaultPeriodCalculator,
    ) -> (res: Result<InterpolatedRateCurve<T>, CurveError>)
        requires
            date_valid_s(reference_date),
            forall|i: int| 0 <= i < tenors.len() ==> tenor_pre_s(#[trigger] tenors@[i], reference_date),
            forall|i: int| 0 <= i < rates.len() ==> (#[trigger] rates@[i]).value.wf(),
        ensures
            (res matches Err(e) && e == CurveError::LengthMismatch) <==> tenors.len()
                != rates.len(),
            (res matches Err(e) && e == CurveError::Interpolation(
                InterpolationError::InsufficientPoints,
            )) <==> (tenors.len() == rates.len() && tenors.len() < 2),
            res matches Ok(c) ==> {
                &&& c.c_wf()
                &&& c.xs().len() == tenors.len()
                &&& c.first_quote() == rates[0]
                &&& forall|i: int|
                    0 <= i < tenors.len() ==> #[trigger] c.xs()[i] == tenor_abscissa_s(
                        reference_date,
                        tenors@[i],
                        rates@[i].convention,
                    )
                &&& forall|i: int|
                    0 <= i < rates.len() ==> #[trigger] c.ys()[i] == rates@[i].value.val_m()
            },
    {
        let n: usize = tenors.len();
        if n != rates.len() {
            return Err(CurveError::LengthMismatch);
        }
        let mut year_fractions: Vec<T> = Vec::new();
        let mut rate_values: Vec<T> = Vec::new();
        let mut i: usize = 0;
        while i < n
            invariant
                0 <= i <= n,
                n == tenors.len(),
                n == rates.len(),
                date_valid_s(reference_date),
                forall|j: int|
                    0 <= j < tenors.len() ==> tenor_pre_s(#[trigger] tenors@[j], reference_date),
                forall|j: int| 0 <= j < rates.len() ==> (#[trigger] rates@[j]).value.wf(),
                year_fractions.len() == i,
                rate_values.len() == i,
                wf_seq(year_fractions@),
                wf_seq(rate_values@),
                forall|j: int|
                    0 <= j < i ==> (#[trigger] year_fractions[j]).val_m() == tenor_abscissa_s(
                        reference_date,
                        tenors@[j],
                        rates@[j].convention,
                    ),
                forall|j: int|
                    0 <= j < i ==> (#[trigger] rate_values[j]).val_m() == rates@[j].value.val_m(),
            decreases n - i,
        {
            let end: Date = tenors[i].advance(reference_date);
            let yf = calculator.year_fraction(reference_date, end, rates[i].convention);
            year_fractions.push(T::lift(yf.to_fixed()));
            rate_values.push(rates[i].value.dup());
            i = i + 1;
        }
        match LinearInterpolator::new(year_fractions, rate_values) {
            Ok(interpolator) => Ok(
                InterpolatedRateCurve { reference_date, tenors, rates, interpolator },
            ),
            Err(e) => Err(CurveError::Interpolation(e)),
        }
    }
}

impl<T: Real> RateCurve<T> for InterpolatedRateCurve<T> {
    open spec fn zr_m(&self, t: int) -> int {
        lin_interp_s(self.xs(), self.ys(), t)
    }

    open spec fn df_m(&self, t: int) -> int {
        df_s(
            self.first_quote().compounding,
            freq_per_year_s(self.first_quote().frequency),
            self.zr_m(t),
            t,
        )
    }

    closed spec fn c_wf(&self) -> bool {
        self.rates.len() >= 1
    }

    fn zero_rate(&self, t: &T) -> (r: T) {
        self.interpolator.interpolate(t)
    }

    fn discount_factor(&self, t: &T) -> (r: T) {
        let r: T = self.zero_rate(t);
        let rate: InterestRate<T> = InterestRate {
            value: r,
            convention: self.rates[0].convention,
            compounding: self.rates[0].compounding,
            frequency: self.rates[0].frequency,
        };
        rate.discount_factor(t)
    }
}

/// A surface quoting one volatility at every horizon.
#[derive(Clone, Copy, Debug)]
pub struct FlatVolSurface<T: Real> {
    vol: T,
}

impl<T: Real> FlatVolSurface<T> {
    /// Wrap a single volatility quote.
    pub fn new(vol: T) -> (r: FlatVolSurface<T>)
        ensures
            r.quoted() == vol,
    {
        FlatVolSurface { vol }
    }

    /// The quoted volatility.
    pub closed spec fn quoted(&self) -> T {
        self.vol
    }
}

impl<T: Real> VolSurface<T> for FlatVolSurface<T> {
    open spec fn vol_m(&self, t: int) -> int {
        self.quoted().val_m()
    }

    open spec fn v_wf(&self) -> bool {
        self.quoted().wf()
    }

    fn volatility(&self, t: &T) -> (r: T) {
        self.vol.dup()
    }
}

/// A term structure of volatilities across tenors, held with its
/// interpolation table.
#[derive(Debug)]
pub struct InterpolatedVolSurface<T: Real> {
    reference_date: Date,
    tenors: Vec<Tenor>,
    vols: Vec<T>,
    interpolator: LinearInterpolator<T>,
}

impl<T: Real> InterpolatedVolSurface<T> {
    /// The interpolation abscissae (Actual/365 year fractions).
    pub closed spec fn xs(&self) -> Seq<int> {
        self.interpolator.xs()
    }

    /// The quoted volatilities.
    pub closed spec fn ys(&self) -> Seq<int> {
        self.interpolator.ys()
    }

    /// Build a surface from tenors and volatility quotes as of a
    /// reference date, under the Actual/365 convention.
    pub fn new(
        reference_date: Date,
        tenors: Vec<Tenor>,
        vols: Vec<T>,
        calculator: &DefaultPeriodCalculator,
    ) -> (res: Result<InterpolatedVolSurface<T>, CurveError>)
        requires
            date_valid_s(reference_date),
            forall|i: int| 0 <= i < tenors.len() ==> tenor_pre_s(#[trigger] tenors@[i], reference_date),
            wf_seq(vols@),
        ensures
            (res matches Err(e) && e == CurveError::LengthMismatch) <==> tenors.len()
                != vols.len(),
            (res matches Err(e) && e == CurveError::Interpolation(
                InterpolationError::InsufficientPoints,
            )) <==> (tenors.len() == vols.len() && tenors.len() < 2),
            res matches Ok(c) ==> {
                &&& c.xs().len() == tenors.len()
                &&& forall|i: int|
                    0 <= i < tenors.len() ==> #[trigger] c.xs()[i] == tenor_abscissa_s(
                        reference_date,
                        tenors@[i],
                        DayCountConvention::<WeekendCalendar>::Actual365Fixed,
                    )
                &&& forall|i: int|
                    0 <= i < vols.len() ==> #[trigger] c.ys()[i] == vals(vols@)[i]
            },
    {
        let n: usize = tenors.len();
        if n != vols.len() {
            return Err(CurveError::LengthMismatch);
        }
        let mut year_fractions: Vec<T> = Vec::new();
        let mut vol_values: Vec<T> = Vec::new();
        let mut i: usize = 0;
        while i < n
            invariant
                0 <= i <= n,
                n == tenors.len(),
                n == vols.len(),
                date_valid_s(reference_date),
                forall|j: int|
                    0 <= j < tenors.len() ==> tenor_pre_s(#[trigger] tenors@[j], reference_date),
                wf_seq(vols@),
                year_fractions.len() == i,
                vol_values.len() == i,
                wf_seq(year_fractions@),
                wf_seq(vol_values@),
                forall|j: int|
                    0 <= j < i ==> (#[trigger] year_fractions[j]).val_m() == tenor_abscissa_s(
                        reference_date,
                        tenors@[j],
                        DayCountConvention::<WeekendCalendar>::Actual365Fixed,
                    ),
                forall|j: int|
                    0 <= j < i ==> (#[trigger] vol_values[j]).val_m() == vals(vols@)[j],
            decreases n - i,
        {
            let end: Date = tenors[i].advance(reference_date);
            let yf = calculator.year_fraction(
                reference_date,
                end,
                DayCountConvention::<WeekendCalendar>::Actual365Fixed,
            );
            year_fractions.push(T::lift(yf.to_fixed()));
            vol_values.push(vols[i].dup());
            i = i + 1;
        }
        match LinearInterpolator::new(year_fractions, vol_values) {
            Ok(interpolator) => Ok(
                InterpolatedVolSurface { reference_date, tenors, vols, interpolator },
            ),
            Err(e) => Err(CurveError::Interpolation(e)),
        }
    }
}

/// Spot and a rate curve.
#[derive(Clone, Copy, Debug)]
pub struct MarketData<T: Real, RC: RateCurve<T>> {
    /// The spot price of the underlying.
    pub spot_price: T,
    /// The discounting curve.
    pub rate_curve: RC,
}

impl<T: Real, RC: RateCurve<T>> MarketData<T, RC> {
    /// Bundle spot and curve.
    pub fn new(spot_price: T, rate_curve: RC) -> (r: MarketData<T, RC>)
        ensures
            r.spot_price == spot_price,
            r.rate_curve == rate_curve,
    {
        MarketData { spot_price, rate_curve }
    }
}

/// Spot, a rate curve and a volatility surface: what an option
/// pricer needs.
#[derive(Clone, Copy, Debug)]
pub struct OptionMarketData<T: Real, RC: RateCurve<T>, VS: VolSurface<T>> {
    /// The spot price of the underlying.
    pub spot_price: T,
    /// The discounting curve.
    pub rate_curve: RC,
    /// The volatility surface.
    pub vol_surface: VS,
}

impl<T: Real, RC: RateCurve<T>, VS: VolSurface<T>> OptionMarketData<T, RC, VS> {
    /// Everything the bundle holds is well-formed.
    pub open spec fn wf(&self) -> bool {
        self.spot_price.wf() && self.rate_curve.c_wf() && self.vol_surface.v_wf()
    }

    /// Bundle spot, curve and surface.
    pub fn new(spot_price: T, rate_curve: RC, vol_surface: VS) -> (r: OptionMarketData<T, RC, VS>)
        ensures
            r.spot_price == spot_price,
            r.rate_curve == rate_curve,
            r.vol_surface == vol_surface,
    {
        OptionMarketData { spot_price, rate_curve, vol_surface }
    }
}

} // verus!
