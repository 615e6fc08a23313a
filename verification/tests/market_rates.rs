use qox::clock::today;
use qox::daycount::{Date, DayCountConvention, DefaultPeriodCalculator, WeekendCalendar};
use qox::fixed::Fixed;
use qox::instruments::{FutureOption, OptionType};
use qox::market::{
    ContinuousRateCurve, FlatRateCurve, FlatVolSurface, InterpolatedRateCurve, RateCurve,
    VolSurface,
};
use qox::rate::{Compounding, Discountable, Frequency, InterestRate};
use qox::tenor::Tenor;
use qox::error::CurveError;
use qox::interp::InterpolationError;

fn fx(v: f64) -> Fixed {
    Fixed::from_mantissa((v * 1e9).round() as i64)
}

fn to_f64(x: Fixed) -> f64 {
    x.mantissa() as f64 / 1e9
}

fn flat_rate(value: f64, compounding: Compounding, frequency: Frequency) -> InterestRate<Fixed> {
    InterestRate {
        value: fx(value),
        convention: DayCountConvention::<WeekendCalendar>::Actual365Fixed,
        compounding,
        frequency,
    }
}

#[test]
fn discount_factors_match_reference_formulas() {
    let t = fx(2.0);
    let simple = flat_rate(0.05, Compounding::Simple, Frequency::Annual);
    assert!((to_f64(simple.discount_factor(&t)) - 1.0 / 1.1).abs() < 1e-8);
    let cont = flat_rate(0.05, Compounding::Continuous, Frequency::Infinite);
    assert!((to_f64(cont.discount_factor(&t)) - (-0.1f64).exp()).abs() < 1e-7);
    let comp = flat_rate(0.05, Compounding::Compounded, Frequency::SemiAnnual);
    let expected = 1.0 / (1.0f64 + 0.025).powf(4.0);
    assert!((to_f64(comp.discount_factor(&t)) - expected).abs() < 1e-6);
    let stc = flat_rate(0.05, Compounding::SimpleThenCompounded, Frequency::Annual);
    assert!((to_f64(stc.discount_factor(&fx(0.5))) - 1.0 / 1.025).abs() < 1e-7);
    assert!(
        (to_f64(stc.discount_factor(&t)) - 1.0 / (1.05f64 * 1.05)).abs() < 1e-6
    );
}

#[test]
fn implied_rate_inverts_discounting() {
    let t = fx(2.0);
    for compounding in [Compounding::Simple, Compounding::Continuous, Compounding::Compounded] {
        let rate = flat_rate(0.04, compounding, Frequency::Quarterly);
        let df = rate.discount_factor(&t);
        let implied = InterestRate::implied_rate(
            df,
            t,
            compounding,
            Frequency::Quarterly,
            DayCountConvention::<WeekendCalendar>::Actual365Fixed,
        );
        assert!(
            (to_f64(implied.value) - 0.04).abs() < 1e-5,
            "round trip for {compounding:?} gave {}",
            to_f64(implied.value)
        );
    }
}

#[test]
fn flat_curves_quote_their_rate_everywhere() {
    let curve = FlatRateCurve::new(flat_rate(0.03, Compounding::Continuous, Frequency::Infinite));
    assert_eq!(to_f64(curve.zero_rate(&fx(0.1))), 0.03);
    assert_eq!(to_f64(curve.zero_rate(&fx(7.0))), 0.03);
    let ccurve = ContinuousRateCurve::new(fx(0.03));
    assert!((to_f64(ccurve.discount_factor(&fx(1.0))) - (-0.03f64).exp()).abs() < 1e-7);
    let vol = FlatVolSurface::new(fx(0.2));
    assert_eq!(to_f64(vol.volatility(&fx(0.5))), 0.2);
}

#[test]
fn interpolated_curve_interpolates_between_tenors() {
    let refd = Date::from_ymd(2023, 1, 1).unwrap();
    let calc = DefaultPeriodCalculator;
    let tenors = vec![Tenor::Years(1), Tenor::Years(2), Tenor::Years(3)];
    let rates = vec![
        flat_rate(0.02, Compounding::Continuous, Frequency::Infinite),
        flat_rate(0.03, Compounding::Continuous, Frequency::Infinite),
        flat_rate(0.04, Compounding::Continuous, Frequency::Infinite),
    ];
    let curve = InterpolatedRateCurve::new(refd, tenors, rates, &calc).unwrap();
    // year fractions land at ~1y, ~2y, ~3y; halfway in between the
    // rate is the average of the neighbours
    let r15 = to_f64(curve.zero_rate(&fx(1.5)));
    assert!((r15 - 0.025).abs() < 1e-3, "mid rate {r15}");
    let r1 = to_f64(curve.zero_rate(&fx(1.0)));
    assert!((r1 - 0.02).abs() < 1e-3);
}

#[test]
fn interpolated_curve_validates_lengths() {
    let refd = Date::from_ymd(2023, 1, 1).unwrap();
    let calc = DefaultPeriodCalculator;
    let r = InterpolatedRateCurve::<Fixed>::new(
        refd,
        vec![Tenor::Years(1)],
        vec![
            flat_rate(0.02, Compounding::Continuous, Frequency::Infinite),
            flat_rate(0.03, Compounding::Continuous, Frequency::Infinite),
        ],
        &calc,
    );
    assert!(matches!(r, Err(CurveError::LengthMismatch)));
}

#[test]
fn curve_errors_carry_their_cause() {
    let refd = Date::from_ymd(2023, 1, 1).unwrap();
    let calc = DefaultPeriodCalculator;
    let r = InterpolatedRateCurve::<Fixed>::new(
        refd,
        vec![Tenor::Years(1)],
        vec![flat_rate(0.02, Compounding::Continuous, Frequency::Infinite)],
        &calc,
    );
    assert!(matches!(
        r,
        Err(CurveError::Interpolation(InterpolationError::InsufficientPoints))
    ));
    let e = qox::error::QoxError::from_curve(CurveError::LengthMismatch);
    assert_eq!(e, qox::error::QoxError::Curve(CurveError::LengthMismatch));
    let e = qox::error::QoxError::from_interpolation(InterpolationError::NotMonotonic);
    assert_eq!(
        e,
        qox::error::QoxError::Interpolation(InterpolationError::NotMonotonic)
    );
}

#[test]
fn today_is_a_valid_calendar_date() {
    let d = today();
    assert!(Date::from_ymd(d.year, d.month, d.day).is_some());
    // an instrument valued as of today measures a positive time to a
    // far-future expiry
    let opt = FutureOption::new(fx(100.0), Date::from_ymd(9999, 1, 1).unwrap(), OptionType::Call);
    assert!(opt.valuation.year >= 2025);
}
