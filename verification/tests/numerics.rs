use qox::dual::Dual;
use qox::fixed::Fixed;
use qox::grad::Gradient;
use qox::hess::Hessian;
use qox::tape::{ReverseGradient, Tape};

fn fx(v: f64) -> Fixed {
    Fixed::from_mantissa((v * 1e9).round() as i64)
}

fn to_f64(x: Fixed) -> f64 {
    x.mantissa() as f64 / 1e9
}

#[test]
fn single_variable_dual_differentiates() {
    // f(x) = x^2 * exp(x) at x = 1: f' = (x^2 + 2x) e^x = 3e
    let x = Dual::var(fx(1.0));
    let f = x.mul(&x).mul(&x.exp());
    assert!((to_f64(f.val) - 1.0f64.exp()).abs() < 1e-6);
    assert!((to_f64(f.der) - 3.0 * 1.0f64.exp()).abs() < 1e-5);
    // matches the vector carrier's single-direction gradient
    let g = Gradient::var(fx(1.0), 0, 1);
    let gf = g.mul(&g).mul(&g.exp());
    assert_eq!(to_f64(f.val), to_f64(gf.val));
    let c = Dual::constant(fx(4.0));
    assert_eq!(to_f64(c.der), 0.0);
    assert_eq!(to_f64(x.max(&c).val), 4.0);
}

#[test]
fn fixed_arithmetic_is_exact_on_representables() {
    let a = fx(1.5);
    let b = fx(2.25);
    assert_eq!(to_f64(a.add(&b)), 3.75);
    assert_eq!(to_f64(a.sub(&b)), -0.75);
    assert_eq!(to_f64(a.mul(&b)), 3.375);
    assert_eq!(to_f64(b.div(&a)), 1.5);
    assert_eq!(to_f64(a.neg()), -1.5);
    assert_eq!(to_f64(fx(4.0).sqrt()), 2.0);
    assert_eq!(to_f64(fx(2.0).powi(10)), 1024.0);
}

#[test]
fn transcendentals_match_reference_values() {
    assert!((to_f64(fx(1.0).exp()) - 1.0f64.exp()).abs() < 1e-7);
    assert!((to_f64(fx(6.16).exp()) - 6.16f64.exp()).abs() < 6.16f64.exp() * 1e-6);
    assert!((to_f64(fx(-3.0).exp()) - (-3.0f64).exp()).abs() < 1e-7);
    assert!((to_f64(fx(0.01).ln()) - 0.01f64.ln()).abs() < 1e-7);
    assert!((to_f64(fx(475.0).ln()) - 475.0f64.ln()).abs() < 1e-6);
    assert!((to_f64(fx(2.0).sqrt()) - 2.0f64.sqrt()).abs() < 1e-8);
    assert!((to_f64(fx(0.0).norm_cdf()) - 0.5).abs() < 1e-7);
    assert!((to_f64(fx(1.0).norm_cdf()) - 0.841344746).abs() < 1e-6);
    assert!((to_f64(fx(-1.0).norm_cdf()) - 0.158655254).abs() < 1e-6);
    let p = fx(2.0).powf(&fx(0.5));
    assert!((to_f64(p) - 2.0f64.sqrt()).abs() < 1e-6);
}

/// Central finite difference of a scalar function of one variable.
fn central_diff(f: impl Fn(Fixed) -> Fixed, x: f64) -> f64 {
    let h = 1e-4;
    (to_f64(f(fx(x + h))) - to_f64(f(fx(x - h)))) / (2.0 * h)
}

fn grad_of(f: impl Fn(Gradient) -> Gradient, x: f64) -> f64 {
    let g = f(Gradient::var(fx(x), 0, 1));
    to_f64(g.grad[0])
}

fn hess_grad_of(f: impl Fn(Hessian) -> Hessian, x: f64) -> f64 {
    let g = f(Hessian::var(fx(x), 0, 1));
    to_f64(g.grad[0])
}

#[test]
fn forward_gradient_matches_central_differences() {
    let cases: Vec<(fn(Fixed) -> Fixed, fn(Gradient) -> Gradient, f64)> = vec![
        (|x: Fixed| x.exp(), |x: Gradient| x.exp(), 0.7),
        (|x: Fixed| x.ln(), |x: Gradient| x.ln(), 1.3),
        (|x: Fixed| x.sqrt(), |x: Gradient| x.sqrt(), 2.1),
        (|x: Fixed| x.powi(3), |x: Gradient| x.powi(3), 1.4),
        (|x: Fixed| x.powf(&fx(2.5)), |x: Gradient| x.powf(&Gradient::constant(fx(2.5))), 1.2),
        (|x: Fixed| x.norm_cdf(), |x: Gradient| x.norm_cdf(), 0.3),
        (
            |x: Fixed| x.exp().mul(&x.ln()).add(&x.sqrt().div(&x)),
            |x: Gradient| x.exp().mul(&x.ln()).add(&x.sqrt().div(&x)),
            1.6,
        ),
    ];
    for (fp, fg, x) in cases {
        let fd = central_diff(fp, x);
        let ad = grad_of(fg, x);
        assert!(
            (fd - ad).abs() <= 2e-5 * (1.0 + ad.abs()),
            "finite difference {fd} vs forward gradient {ad} at {x}"
        );
    }
}

#[test]
fn hessian_first_derivatives_match_forward_gradient() {
    let xs = [0.4, 1.1, 2.3];
    for &x in xs.iter() {
        assert_eq!(grad_of(|v| v.exp(), x), hess_grad_of(|v| v.exp(), x));
        assert_eq!(grad_of(|v| v.ln(), x), hess_grad_of(|v| v.ln(), x));
        assert_eq!(grad_of(|v| v.sqrt(), x), hess_grad_of(|v| v.sqrt(), x));
        assert_eq!(grad_of(|v| v.powi(4), x), hess_grad_of(|v| v.powi(4), x));
        assert_eq!(grad_of(|v| v.norm_cdf(), x), hess_grad_of(|v| v.norm_cdf(), x));
        let g2 = Gradient::var(fx(x), 0, 1).mul(&Gradient::var(fx(x), 0, 1));
        let h2 = Hessian::var(fx(x), 0, 1).mul(&Hessian::var(fx(x), 0, 1));
        assert_eq!(to_f64(g2.grad[0]), to_f64(h2.grad[0]));
    }
}

#[test]
fn hessian_second_derivatives_match_central_differences() {
    // f(x) = x^3: f'' = 6x; f(x) = exp(x): f'' = exp(x)
    let h = Hessian::var(fx(1.5), 0, 1).powi(3);
    assert!((to_f64(h.hess[0][0]) - 9.0).abs() < 1e-5);
    let e = Hessian::var(fx(0.8), 0, 1).exp();
    assert!((to_f64(e.hess[0][0]) - 0.8f64.exp()).abs() < 1e-5);
    // two variables: f(x, y) = x * y has unit cross partials and a
    // symmetric matrix
    let x = Hessian::var(fx(2.0), 0, 2);
    let y = Hessian::var(fx(3.0), 1, 2);
    let p = x.mul(&y);
    assert_eq!(to_f64(p.hess[0][1]), 1.0);
    assert_eq!(to_f64(p.hess[1][0]), 1.0);
    assert_eq!(to_f64(p.hess[0][0]), 0.0);
}

#[test]
fn reverse_gradients_match_forward_gradients() {
    // f(x, y) = exp(x * y) + x / y - sqrt(y) * ln(x)
    let xv = 1.3;
    let yv = 2.2;
    let gx = Gradient::var(fx(xv), 0, 2);
    let gy = Gradient::var(fx(yv), 1, 2);
    let gf = gx.mul(&gy).exp().add(&gx.div(&gy)).sub(&gy.sqrt().mul(&gx.ln()));

    let mut tape = Tape::new();
    let rx = ReverseGradient::var(&mut tape, fx(xv));
    let ry = ReverseGradient::var(&mut tape, fx(yv));
    let rf = rx
        .mul(&ry, &mut tape)
        .exp(&mut tape)
        .add(&rx.div(&ry, &mut tape), &mut tape)
        .sub(&ry.sqrt(&mut tape).mul(&rx.ln(&mut tape), &mut tape), &mut tape);
    assert_eq!(to_f64(gf.val), to_f64(rf.val));
    let adj = rf.backward(&tape);
    assert!((to_f64(adj[rx.index]) - to_f64(gf.grad[0])).abs() < 1e-6);
    assert!((to_f64(adj[ry.index]) - to_f64(gf.grad[1])).abs() < 1e-6);
}

#[test]
fn reverse_matches_forward_per_operation() {
    let xv = 0.9;
    let yv = 1.7;
    let ops: Vec<(fn(Gradient, Gradient) -> Gradient, fn(ReverseGradient, ReverseGradient, &mut Tape) -> ReverseGradient)> = vec![
        (|a, b| a.add(&b), |a, b, t| a.add(&b, t)),
        (|a, b| a.sub(&b), |a, b, t| a.sub(&b, t)),
        (|a, b| a.mul(&b), |a, b, t| a.mul(&b, t)),
        (|a, b| a.div(&b), |a, b, t| a.div(&b, t)),
        (|a, b| a.max(&b), |a, b, t| a.max(&b, t)),
        (|a, b| a.powf(&b), |a, b, t| a.powf(&b, t)),
    ];
    for (fg, fr) in ops {
        let gf = fg(Gradient::var(fx(xv), 0, 2), Gradient::var(fx(yv), 1, 2));
        let mut tape = Tape::new();
        let rx = ReverseGradient::var(&mut tape, fx(xv));
        let ry = ReverseGradient::var(&mut tape, fx(yv));
        let rf = fr(rx, ry, &mut tape);
        let adj = rf.backward(&tape);
        assert!((to_f64(adj[0]) - to_f64(gf.grad[0])).abs() < 2e-6);
        assert!((to_f64(adj[1]) - to_f64(gf.grad[1])).abs() < 2e-6);
    }
    // unary operations through the tape
    let mut tape = Tape::new();
    let rx = ReverseGradient::var(&mut tape, fx(xv));
    let rf = rx.exp(&mut tape).ln(&mut tape).sqrt(&mut tape).norm_cdf(&mut tape).powi(2, &mut tape);
    let adj = rf.backward(&tape);
    let gf = Gradient::var(fx(xv), 0, 1).exp().ln().sqrt().norm_cdf().powi(2);
    assert!((to_f64(adj[0]) - to_f64(gf.grad[0])).abs() < 2e-6);
}

#[test]
fn tape_clears_between_evaluations() {
    let mut tape = Tape::new();
    let x = ReverseGradient::var(&mut tape, fx(2.0));
    let _ = x.mul(&x, &mut tape);
    assert_eq!(tape.len(), 2);
    tape.clear();
    assert_eq!(tape.len(), 0);
    let y = ReverseGradient::var(&mut tape, fx(3.0));
    assert_eq!(y.index, 0);
}
