use qox::daycount::Date;
use qox::evaluator::{Evaluator, FdmConfig, interpolate_grid};
use qox::fixed::Fixed;
use qox::grad::Gradient;
use qox::instruments::{FutureOption, OptionType};
use qox::market::{ContinuousRateCurve, FlatVolSurface, OptionMarketData};
use qox::mesher::{Mesher1d, MesherError, UniformMesher1d};
use qox::operators::TridiagonalCoeffs;
use qox::solver::solve_tridiagonal;

fn fx(v: f64) -> Fixed {
    Fixed::from_mantissa((v * 1e9).round() as i64)
}

fn to_f64(x: Fixed) -> f64 {
    x.mantissa() as f64 / 1e9
}

fn norm_cdf(x: f64) -> f64 {
    0.5 * (1.0 + libm::erf(x / std::f64::consts::SQRT_2))
}

/// Closed-form European put under Black-Scholes.
fn bs_put(s: f64, k: f64, r: f64, sigma: f64, t: f64) -> f64 {
    let d1 = ((s / k).ln() + (r + 0.5 * sigma * sigma) * t) / (sigma * t.sqrt());
    let d2 = d1 - sigma * t.sqrt();
    k * (-r * t).exp() * norm_cdf(-d2) - s * norm_cdf(-d1)
}

fn put_instrument() -> FutureOption {
    // exactly one Actual/365 year to expiry
    FutureOption::new_at(
        fx(100.0),
        Date::from_ymd(2024, 1, 1).unwrap(),
        OptionType::Put,
        Date::from_ymd(2023, 1, 1).unwrap(),
    )
}

fn market() -> OptionMarketData<Fixed, ContinuousRateCurve<Fixed>, FlatVolSurface<Fixed>> {
    OptionMarketData::new(
        fx(95.0),
        ContinuousRateCurve::new(fx(0.05)),
        FlatVolSurface::new(fx(0.20)),
    )
}

fn fdm_price(nodes: usize, time_steps: usize) -> f64 {
    let evaluator = Evaluator {
        config: FdmConfig { nodes, time_steps, damping_steps: 0 },
    };
    let p = evaluator.evaluate(&put_instrument(), &market()).unwrap();
    to_f64(p)
}

#[test]
fn fdm_put_price_is_close_to_closed_form() {
    let reference = bs_put(95.0, 100.0, 0.05, 0.20, 1.0);
    let price = fdm_price(200, 100);
    assert!(
        (price - reference).abs() / reference < 0.01,
        "finite-difference price {price} vs closed form {reference}"
    );
}

#[test]
fn grid_refinement_reduces_pricing_error() {
    let reference = bs_put(95.0, 100.0, 0.05, 0.20, 1.0);
    let coarse = (fdm_price(100, 50) - reference).abs();
    let fine = (fdm_price(200, 100) - reference).abs();
    assert!(fine < coarse, "coarse error {coarse}, fine error {fine}");
}

#[test]
fn log_space_and_natural_space_prices_agree() {
    let reference = bs_put(95.0, 100.0, 0.05, 0.20, 1.0);
    let log_price = fdm_price(200, 100);

    // natural-space assembly over an equivalent price range
    let nodes = 400;
    let steps = 100;
    let mesher = UniformMesher1d::<Fixed>::new(fx(0.01), fx(5.0 * 95.0), nodes).unwrap();
    let evaluator = Evaluator {
        config: FdmConfig { nodes, time_steps: steps, damping_steps: 0 },
    };
    let instrument = put_instrument();
    let mut v = evaluator.initialize_payoff(&instrument, &mesher);
    let dt = fx(1.0 / steps as f64);
    let coeffs = TridiagonalCoeffs::black_scholes_operator(
        mesher.centers(),
        &fx(0.05),
        &fx(0.20),
        &dt,
    );
    for _ in 0..steps {
        v = solve_tridiagonal(&coeffs.a, &coeffs.b, &coeffs.c, &v);
    }
    let nat_price = to_f64(interpolate_grid(mesher.centers(), &v, &fx(95.0)));

    assert!(
        (nat_price - log_price).abs() / reference < 0.02,
        "natural {nat_price} vs log {log_price}"
    );
}

#[test]
fn fdm_delta_matches_closed_form() {
    // run the same pricing once over the first-order carrier with the
    // spot seeded as the single independent input
    let evaluator = Evaluator {
        config: FdmConfig { nodes: 200, time_steps: 100, damping_steps: 0 },
    };
    let market = OptionMarketData::new(
        Gradient::var(fx(95.0), 0, 1),
        ContinuousRateCurve::new(Gradient::constant(fx(0.05))),
        FlatVolSurface::new(Gradient::constant(fx(0.20))),
    );
    let p = evaluator.evaluate(&put_instrument(), &market).unwrap();
    let reference = bs_put(95.0, 100.0, 0.05, 0.20, 1.0);
    assert!((to_f64(p.val) - reference).abs() / reference < 0.01);
    // the seeded derivative must match bumping and repricing the
    // same discrete computation
    let h = 0.05;
    let evaluator_f = |spot: f64| {
        let m = OptionMarketData::new(
            fx(spot),
            ContinuousRateCurve::new(fx(0.05)),
            FlatVolSurface::new(fx(0.20)),
        );
        to_f64(evaluator.evaluate(&put_instrument(), &m).unwrap())
    };
    let bump_delta = (evaluator_f(95.0 + h) - evaluator_f(95.0 - h)) / (2.0 * h);
    let delta = to_f64(p.grad[0]);
    assert!(
        (delta - bump_delta).abs() < 1e-3,
        "seeded delta {delta} vs bumped delta {bump_delta}"
    );
    // and stay in the neighbourhood of the closed-form delta
    let d1 = ((95.0f64 / 100.0).ln() + (0.05 + 0.5 * 0.04) * 1.0) / 0.20;
    let delta_ref = norm_cdf(d1) - 1.0;
    assert!((delta - delta_ref).abs() < 0.05);
}

#[test]
fn evaluate_reports_grid_construction_errors() {
    let evaluator = Evaluator {
        config: FdmConfig { nodes: 1, time_steps: 10, damping_steps: 0 },
    };
    let r = evaluator.evaluate(&put_instrument(), &market());
    assert!(matches!(r, Err(MesherError::InsufficientPoints)));
    // a spot so small that the whole grid collapses
    let tiny = OptionMarketData::new(
        fx(0.002),
        ContinuousRateCurve::new(fx(0.05)),
        FlatVolSurface::new(fx(0.20)),
    );
    let evaluator = Evaluator {
        config: FdmConfig { nodes: 200, time_steps: 10, damping_steps: 0 },
    };
    let r = evaluator.evaluate(&put_instrument(), &tiny);
    assert!(r.is_err());
}
