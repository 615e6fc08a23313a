use qox::fixed::Fixed;
use qox::interp::{Interpolator1D, InterpolationError, LinearInterpolator};
use qox::mesher::{FdmLog1dMesher, Mesher1d, MesherError, UniformMesher1d};
use qox::solver::solve_tridiagonal;

fn fx(v: f64) -> Fixed {
    Fixed::from_mantissa((v * 1e9).round() as i64)
}

fn to_f64(x: Fixed) -> f64 {
    x.mantissa() as f64 / 1e9
}

/// Multiply a tridiagonal matrix by a vector, to manufacture a
/// right-hand side with a known solution.
fn tridiag_apply(a: &[Fixed], b: &[Fixed], c: &[Fixed], x: &[Fixed]) -> Vec<Fixed> {
    let n = x.len();
    let mut r = Vec::new();
    for i in 0..n {
        let mut acc = b[i].mul(&x[i]);
        if i > 0 {
            acc = acc.add(&a[i].mul(&x[i - 1]));
        }
        if i + 1 < n {
            acc = acc.add(&c[i].mul(&x[i + 1]));
        }
        r.push(acc);
    }
    r
}

#[test]
fn solver_reproduces_known_solution() {
    let a = vec![fx(0.0), fx(1.0), fx(1.0), fx(0.5)];
    let b = vec![fx(4.0), fx(4.0), fx(4.0), fx(4.0)];
    let c = vec![fx(1.0), fx(1.0), fx(0.5), fx(0.0)];
    let xstar = vec![fx(1.0), fx(-2.0), fx(3.0), fx(0.25)];
    let r = tridiag_apply(&a, &b, &c, &xstar);
    let x = solve_tridiagonal(&a, &b, &c, &r);
    for i in 0..4 {
        assert!(
            (to_f64(x[i]) - to_f64(xstar[i])).abs() < 1e-7,
            "component {i}: {} vs {}",
            to_f64(x[i]),
            to_f64(xstar[i])
        );
    }
}

#[test]
fn solver_handles_one_row() {
    let a = vec![fx(0.0)];
    let b = vec![fx(3.0)];
    let c = vec![fx(0.0)];
    let r = vec![fx(15.0)];
    let x = solve_tridiagonal(&a, &b, &c, &r);
    assert!((to_f64(x[0]) - 5.0).abs() < 1e-8);
}

#[test]
fn solver_handles_two_rows() {
    let a = vec![fx(0.0), fx(1.0)];
    let b = vec![fx(2.0), fx(3.0)];
    let c = vec![fx(1.0), fx(0.0)];
    let xstar = vec![fx(2.0), fx(-1.0)];
    let r = tridiag_apply(&a, &b, &c, &xstar);
    let x = solve_tridiagonal(&a, &b, &c, &r);
    assert!((to_f64(x[0]) - 2.0).abs() < 1e-8);
    assert!((to_f64(x[1]) + 1.0).abs() < 1e-8);
}

#[test]
fn solver_passes_identity_through_exactly() {
    let a = vec![fx(0.0), fx(0.0), fx(0.0)];
    let b = vec![fx(1.0), fx(1.0), fx(1.0)];
    let c = vec![fx(0.0), fx(0.0), fx(0.0)];
    let r = vec![fx(7.125), fx(-0.5), fx(3.25)];
    let x = solve_tridiagonal(&a, &b, &c, &r);
    for i in 0..3 {
        assert_eq!(x[i].mantissa(), r[i].mantissa());
    }
}

#[test]
fn mesher_requires_two_nodes() {
    let r = UniformMesher1d::<Fixed>::new(fx(0.0), fx(1.0), 1);
    assert!(matches!(r, Err(MesherError::InsufficientPoints)));
    let r = UniformMesher1d::<Fixed>::new(fx(0.0), fx(1.0), 0);
    assert!(matches!(r, Err(MesherError::InsufficientPoints)));
}

#[test]
fn mesher_rejects_non_increasing_centers() {
    let r = UniformMesher1d::from_centers(vec![fx(0.0), fx(1.0), fx(1.0)]);
    assert!(matches!(r, Err(MesherError::NotMonotonic)));
    let r = UniformMesher1d::from_centers(vec![fx(2.0), fx(1.0)]);
    assert!(matches!(r, Err(MesherError::NotMonotonic)));
    let r = UniformMesher1d::from_centers(vec![fx(1.0)]);
    assert!(matches!(r, Err(MesherError::InsufficientPoints)));
    // a collapsed span also fails: every node would coincide
    let r = UniformMesher1d::<Fixed>::new(fx(1.0), fx(1.0), 5);
    assert!(matches!(r, Err(MesherError::NotMonotonic)));
}

#[test]
fn uniform_mesher_lays_out_equal_spacings() {
    let m = UniformMesher1d::<Fixed>::new(fx(0.0), fx(4.0), 5).unwrap();
    assert_eq!(m.size(), 5);
    let cs = m.centers();
    for i in 0..5 {
        assert_eq!(to_f64(cs[i].clone()), i as f64);
    }
    let hp = m.h_plus();
    let hm = m.h_minus();
    assert_eq!(to_f64(hp[1].clone()), 1.0);
    assert_eq!(to_f64(hm[1].clone()), 1.0);
    assert_eq!(to_f64(hp[4].clone()), 0.0);
    assert_eq!(to_f64(hm[0].clone()), 0.0);
}

#[test]
fn log_mesher_exposes_exponentiated_locations() {
    let m = UniformMesher1d::<Fixed>::new(fx(0.0), fx(2.0), 3).unwrap();
    let lm = FdmLog1dMesher::new(m);
    assert!((to_f64(lm.location(0)) - 1.0).abs() < 1e-7);
    assert!((to_f64(lm.location(1)) - 1.0f64.exp()).abs() < 1e-6);
    assert!((to_f64(lm.location(2)) - 2.0f64.exp()).abs() < 1e-6);
    // the discretization coordinates stay in log space
    assert_eq!(to_f64(lm.centers()[1].clone()), 1.0);
}

#[test]
fn linear_interpolator_validates_and_interpolates() {
    let r = LinearInterpolator::new(vec![fx(0.0), fx(1.0)], vec![fx(0.0)]);
    assert!(matches!(r, Err(InterpolationError::LengthMismatch)));
    let r = LinearInterpolator::new(vec![fx(0.0)], vec![fx(0.0)]);
    assert!(matches!(r, Err(InterpolationError::InsufficientPoints)));
    let r = LinearInterpolator::new(vec![fx(0.0), fx(0.0)], vec![fx(1.0), fx(2.0)]);
    assert!(matches!(r, Err(InterpolationError::NotMonotonic)));

    let interp = LinearInterpolator::new(
        vec![fx(0.0), fx(1.0), fx(2.0)],
        vec![fx(0.0), fx(10.0), fx(20.0)],
    )
    .unwrap();
    assert!((to_f64(interp.interpolate(&fx(0.0))) - 0.0).abs() < 1e-9);
    assert!((to_f64(interp.interpolate(&fx(0.5))) - 5.0).abs() < 1e-8);
    assert!((to_f64(interp.interpolate(&fx(1.0))) - 10.0).abs() < 1e-8);
    assert!((to_f64(interp.interpolate(&fx(1.5))) - 15.0).abs() < 1e-8);
    assert!((to_f64(interp.interpolate(&fx(2.0))) - 20.0).abs() < 1e-8);
    // beyond the table it extrapolates from the nearest interval
    assert!((to_f64(interp.interpolate(&fx(3.0))) - 30.0).abs() < 1e-7);
}
