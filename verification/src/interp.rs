//! Linear interpolation over strictly increasing abscissae.
//!
//! Construction validates lengths and strict monotonicity with typed
//! errors.  Lookups bracket the query by binary search; queries
//! outside the table extrapolate linearly from the nearest interval.

use vstd::prelude::*;
use crate::fixed::{Fixed, fx_add, fx_sub, fx_mul, fx_div, SCALE};
use crate::scalar::{Real, vals, wf_seq};
use crate::mesher::seq_increasing;

verus! {

/// Why an interpolator could not be built.
#[derive(Clone, Copy, Debug, PartialEq, Eq, Structural)]
pub enum InterpolationError {
    /// Abscissae and ordinates differ in length.
    LengthMismatch,
    /// Fewer than two points were supplied.
    InsufficientPoints,
    /// The abscissae are not strictly increasing.
    NotMonotonic,
}

/// `i` is the bracketing interval for `t`: `s[i] <= t < s[i+1]`.
pub open spec fn is_bracket(s: Seq<int>, t: int, i: int) -> bool {
    0 <= i < s.len() - 1 && s[i] <= t < s[i + 1]
}

/// The unique bracketing interval of `t` in an increasing sequence
/// (meaningful when `s[0] <= t < s[last]`).
pub open spec fn bracket_of(s: Seq<int>, t: int) -> int {
    choose|i: int| #[trigger] is_bracket(s, t, i)
}

/// In a strictly increasing sequence, entries are ordered across any
/// index gap.
pub proof fn lemma_increasing_global(s: Seq<int>, i: int, j: int)
    requires
        seq_increasing(s),
        0 <= i < j < s.len(),
    ensures
        s[i] < s[j],
    decreases j - i,
{
    if j == i + 1 {
    } else {
        lemma_increasing_global(s, i, j - 1);
    }
}

/// Bracketing intervals are unique in an increasing sequence.
pub proof fn lemma_bracket_unique(s: Seq<int>, t: int, i1: int, i2: int)
    requires
        seq_increasing(s),
        is_bracket(s, t, i1),
        is_bracket(s, t, i2),
    ensures
        i1 == i2,
{
    if i1 < i2 {
        if i1 + 1 < i2 {
            lemma_increasing_global(s, i1 + 1, i2);
        }
        assert(s[i1 + 1] <= s[i2]);
    }
    if i2 < i1 {
        if i2 + 1 < i1 {
            lemma_increasing_global(s, i2 + 1, i1);
        }
        assert(s[i2 + 1] <= s[i1]);
    }
}

/// The interval the table uses for `t`: clamped to the first or last
/// interval outside the table, the bracketing interval inside.
pub open spec fn find_interval_s(s: Seq<int>, t: int) -> int {
    if t <= s[0] {
        0
    } else if t >= s[s.len() - 1] {
        s.len() - 2
    } else {
        bracket_of(s, t)
    }
}

/// Linear interpolation (or extrapolation) of the table at `t`.
pub open spec fn lin_interp_s(xs: Seq<int>, ys: Seq<int>, t: int) -> int {
    let i = find_interval_s(xs, t);
    let slope = fx_div(fx_sub(ys[i + 1], ys[i]), fx_sub(xs[i + 1], xs[i]));
    fx_add(ys[i], fx_mul(slope, fx_sub(t, xs[i])))
}

/// A one-dimensional interpolator.
pub trait Interpolator1D<T: Real> {
    /// The value the table yields at a query point.
    spec fn interp_m(&self, x: int) -> int;

    /// Structural well-formedness.
    spec fn i_wf(&self) -> bool;

    /// Evaluate the table at `x`.
    fn interpolate(&self, x: &T) -> (r: T)
        requires
            self.i_wf(),
            x.wf(),
        ensures
            r.wf(),
            r.val_m() == self.interp_m(x.val_m()),
    ;
}

/// Piecewise-linear interpolation through given points.
#[derive(Debug)]
pub struct LinearInterpolator<T: Real> {
    x: Vec<T>,
    y: Vec<T>,
}

impl<T: Real> LinearInterpolator<T> {
    /// Structural invariant: equal lengths, at least two points,
    /// strictly increasing abscissae.
    #[verifier::type_invariant]
    spec fn type_inv(&self) -> bool {
        &&& self.x.len() == self.y.len()
        &&& self.x.len() >= 2
        &&& wf_seq(self.x@)
        &&& wf_seq(self.y@)
        &&& seq_increasing(vals(self.x@))
    }

    /// The abscissae, as primal mantissas.
    pub closed spec fn xs(&self) -> Seq<int> {
        vals(self.x@)
    }

    /// The ordinates, as primal mantissas.
    pub closed spec fn ys(&self) -> Seq<int> {
        vals(self.y@)
    }

    /// Build an interpolation table.  The points must agree in
    /// number, number at least two, and have strictly increasing
    /// abscissae.
    pub fn new(x: Vec<T>, y: Vec<T>) -> (res: Result<LinearInterpolator<T>, InterpolationError>)
        requires
            wf_seq(x@),
            wf_seq(y@),
        ensures
            (res matches Err(e) && e == InterpolationError::LengthMismatch) <==> x.len()
                != y.len(),
            (res matches Err(e) && e == InterpolationError::InsufficientPoints) <==> (x.len()
                == y.len() && x.len() < 2),
            (res matches Err(e) && e == InterpolationError::NotMonotonic) <==> (x.len() == y.len()
                && x.len() >= 2 && !seq_increasing(vals(x@))),
            res matches Ok(li) ==> li.xs() == vals(x@) && li.ys() == vals(y@)
                && seq_increasing(vals(x@)) && x.len() == y.len() && x.len() >= 2,
    {
        let n: usize = x.len();
        if n != y.len() {
            return Err(InterpolationError::LengthMismatch);
        }
        if n < 2 {
            return Err(InterpolationError::InsufficientPoints);
        }
        let mut i: usize = 0;
        while i < n - 1
            invariant
                0 <= i <= n - 1,
                n == x.len(),
                x.len() == y.len(),
                n >= 2,
                wf_seq(x@),
                forall|j: int| 0 <= j < i ==> #[trigger] vals(x@)[j] < vals(x@)[j + 1],
            decreases n - 1 - i,
        {
            if !x[i].to_fixed().lt(&x[i + 1].to_fixed()) {
                proof {
                    assert(!(vals(x@)[i as int] < vals(x@)[i as int + 1]));
                    assert(!seq_increasing(vals(x@)));
                }
                return Err(InterpolationError::NotMonotonic);
            }
            i = i + 1;
        }
        Ok(LinearInterpolator { x, y })
    }

    /// Binary search for the interval used at `t`.
    fn find_interval(&self, t: &T) -> (iv: usize)
        requires
            t.wf(),
        ensures
            iv as int == find_interval_s(self.xs(), t.val_m()),
            iv + 1 < self.xs().len(),
    {
        proof {
            use_type_invariant(self);
        }
        find_interval_in(&self.x, t)
    }
}

impl<T: Real> Interpolator1D<T> for LinearInterpolator<T> {
    open spec fn interp_m(&self, x: int) -> int {
        lin_interp_s(self.xs(), self.ys(), x)
    }

    open spec fn i_wf(&self) -> bool {
        true
    }

    fn interpolate(&self, x: &T) -> (r: T) {
        proof {
            use_type_invariant(self);
        }
        let i: usize = self.find_interval(x);
        let x0: &T = &self.x[i];
        let x1: &T = &self.x[i + 1];
        let y0: &T = &self.y[i];
        let y1: &T = &self.y[i + 1];
        let slope: T = y1.sub(y0).div(&x1.sub(x0));
        let dx: T = x.sub(x0);
        y0.add(&slope.mul(&dx))
    }
}


/// Binary search for the interval a table uses at `t`, over any
/// strictly increasing abscissae.
fn find_interval_in<T: Real>(values: &Vec<T>, t: &T) -> (iv: usize)
    requires
        values.len() >= 2,
        wf_seq(values@),
        seq_increasing(vals(values@)),
        t.wf(),
    ensures
        iv as int == find_interval_s(vals(values@), t.val_m()),
        iv + 1 < values.len(),
{
    let tf = t.to_fixed();
    let n: usize = values.len();
    if !values[0].to_fixed().lt(&tf) {
        return 0;
    }
    if !tf.lt(&values[n - 1].to_fixed()) {
        return n - 2;
    }
    let mut lo: usize = 0;
    let mut hi: usize = n - 1;
    while hi - lo > 1
        invariant
            0 <= lo < hi < n,
            n == values.len(),
            wf_seq(values@),
            tf.m() == t.val_m(),
            vals(values@)[lo as int] <= t.val_m(),
            t.val_m() < vals(values@)[hi as int],
        decreases hi - lo,
    {
        let mid: usize = lo + (hi - lo) / 2;
        let xm = values[mid].to_fixed();
        proof {
            assert(xm.m() == vals(values@)[mid as int]);
        }
        if !tf.lt(&xm) {
            lo = mid;
        } else {
            hi = mid;
        }
    }
    proof {
        assert(is_bracket(vals(values@), t.val_m(), lo as int));
        let w = bracket_of(vals(values@), t.val_m());
        assert(is_bracket(vals(values@), t.val_m(), w));
        lemma_bracket_unique(vals(values@), t.val_m(), lo as int, w);
    }
    lo
}

/// A two-dimensional interpolator.
pub trait Interpolator2D<T: Real> {
    /// The value the table yields at a query point.
    spec fn interp2_m(&self, x: int, y: int) -> int;

    /// Evaluate the table at `(x, y)`.
    fn interpolate(&self, x: &T, y: &T) -> (r: T)
        requires
            x.wf(),
            y.wf(),
        ensures
            r.wf(),
            r.val_m() == self.interp2_m(x.val_m(), y.val_m()),
    ;
}

/// The primal mantissas of a matrix of scalars.
pub open spec fn zvals<T: Real>(z: Seq<Vec<T>>) -> Seq<Seq<int>> {
    Seq::new(z.len(), |i: int| vals(z[i]@))
}

/// Bilinear interpolation of the table at `(x, y)`: interpolate in
/// the first coordinate on both bracketing rows, then between the
/// two results in the second coordinate.
pub open spec fn bilin_interp_s(
    xs: Seq<int>,
    ys: Seq<int>,
    zs: Seq<Seq<int>>,
    x: int,
    y: int,
) -> int {
    let i = find_interval_s(xs, x);
    let j = find_interval_s(ys, y);
    let tx = fx_div(fx_sub(x, xs[i]), fx_sub(xs[i + 1], xs[i]));
    let ty = fx_div(fx_sub(y, ys[j]), fx_sub(ys[j + 1], ys[j]));
    let omtx = fx_sub(SCALE as int, tx);
    let z0 = fx_add(fx_mul(zs[i][j], omtx), fx_mul(zs[i + 1][j], tx));
    let z1 = fx_add(fx_mul(zs[i][j + 1], omtx), fx_mul(zs[i + 1][j + 1], tx));
    fx_add(fx_mul(z0, fx_sub(SCALE as int, ty)), fx_mul(z1, ty))
}

/// Bilinear interpolation over a rectangular table `z[i][j]` at
/// `(x[i], y[j])`.
#[derive(Debug)]
pub struct BilinearInterpolator<T: Real> {
    x: Vec<T>,
    y: Vec<T>,
    z: Vec<Vec<T>>,
}

impl<T: Real> BilinearInterpolator<T> {
    /// Structural invariant: a full rectangle, at least two points a
    /// side, strictly increasing abscissae in both directions.
    #[verifier::type_invariant]
    spec fn type_inv(&self) -> bool {
        &&& self.z.len() == self.x.len()
        &&& self.x.len() >= 2
        &&& self.y.len() >= 2
        &&& wf_seq(self.x@)
        &&& wf_seq(self.y@)
        &&& (forall|i: int|
            0 <= i < self.z.len() ==> (#[trigger] self.z[i]).len() == self.y.len())
        &&& (forall|i: int, j: int|
            0 <= i < self.z.len() && 0 <= j < self.z[i].len() ==> (#[trigger] self.z[i][j]).wf())
        &&& seq_increasing(vals(self.x@))
        &&& seq_increasing(vals(self.y@))
    }

    /// The first-coordinate abscissae, as primal mantissas.
    pub closed spec fn xs(&self) -> Seq<int> {
        vals(self.x@)
    }

    /// The second-coordinate abscissae, as primal mantissas.
    pub closed spec fn ys(&self) -> Seq<int> {
        vals(self.y@)
    }

    /// The table values, as primal mantissas.
    pub closed spec fn zs(&self) -> Seq<Seq<int>> {
        zvals(self.z@)
    }

    /// Build a bilinear table.  The outer table dimension must match
    /// `x`, every row must match `y`, each direction needs at least
    /// two points, and both abscissae must strictly increase.
    pub fn new(x: Vec<T>, y: Vec<T>, z: Vec<Vec<T>>) -> (res: Result<
        BilinearInterpolator<T>,
        InterpolationError,
    >)
        requires
            wf_seq(x@),
            wf_seq(y@),
            forall|i: int, j: int|
                0 <= i < z.len() && 0 <= j < z[i].len() ==> (#[trigger] z[i][j]).wf(),
        ensures
            res matches Ok(b) ==> b.xs() == vals(x@) && b.ys() == vals(y@) && b.zs() == zvals(z@)
                && seq_increasing(vals(x@)) && seq_increasing(vals(y@)),
            res is Err ==> !({
                &&& z.len() == x.len()
                &&& (forall|i: int| 0 <= i < z.len() ==> (#[trigger] z[i]).len() == y.len())
                &&& x.len() >= 2
                &&& y.len() >= 2
                &&& seq_increasing(vals(x@))
                &&& seq_increasing(vals(y@))
            }),
    {
        if z.len() != x.len() {
            return Err(InterpolationError::LengthMismatch);
        }
        let mut k: usize = 0;
        while k < z.len()
            invariant
                0 <= k <= z.len(),
                forall|i: int| 0 <= i < k ==> (#[trigger] z[i]).len() == y.len(),
            decreases z.len() - k,
        {
            if z[k].len() != y.len() {
                return Err(InterpolationError::LengthMismatch);
            }
            k = k + 1;
        }
        if x.len() < 2 || y.len() < 2 {
            return Err(InterpolationError::InsufficientPoints);
        }
        let mut i: usize = 0;
        while i < x.len() - 1
            invariant
                0 <= i <= x.len() - 1,
                x.len() >= 2,
                wf_seq(x@),
                forall|j: int| 0 <= j < i ==> #[trigger] vals(x@)[j] < vals(x@)[j + 1],
            decreases x.len() - 1 - i,
        {
            if !x[i].to_fixed().lt(&x[i + 1].to_fixed()) {
                proof {
                    assert(!(vals(x@)[i as int] < vals(x@)[i as int + 1]));
                }
                return Err(InterpolationError::NotMonotonic);
            }
            i = i + 1;
        }
        let mut j: usize = 0;
        while j < y.len() - 1
            invariant
                0 <= j <= y.len() - 1,
                y.len() >= 2,
                wf_seq(y@),
                forall|k2: int| 0 <= k2 < j ==> #[trigger] vals(y@)[k2] < vals(y@)[k2 + 1],
            decreases y.len() - 1 - j,
        {
            if !y[j].to_fixed().lt(&y[j + 1].to_fixed()) {
                proof {
                    assert(!(vals(y@)[j as int] < vals(y@)[j as int + 1]));
                }
                return Err(InterpolationError::NotMonotonic);
            }
            j = j + 1;
        }
        Ok(BilinearInterpolator { x, y, z })
    }
}

impl<T: Real> Interpolator2D<T> for BilinearInterpolator<T> {
    open spec fn interp2_m(&self, x: int, y: int) -> int {
        bilin_interp_s(self.xs(), self.ys(), self.zs(), x, y)
    }

    fn interpolate(&self, x: &T, y: &T) -> (r: T) {
        proof {
            use_type_invariant(self);
        }
        let i: usize = find_interval_in(&self.x, x);
        let j: usize = find_interval_in(&self.y, y);
        let x0: &T = &self.x[i];
        let x1: &T = &self.x[i + 1];
        let y0: &T = &self.y[j];
        let y1: &T = &self.y[j + 1];
        let z00: &T = &self.z[i][j];
        let z01: &T = &self.z[i][j + 1];
        let z10: &T = &self.z[i + 1][j];
        let z11: &T = &self.z[i + 1][j + 1];
        let one: T = T::lift(Fixed::one());
        let tx: T = x.sub(x0).div(&x1.sub(x0));
        let ty: T = y.sub(y0).div(&y1.sub(y0));
        let one_minus_tx: T = one.sub(&tx);
        let z0: T = z00.mul(&one_minus_tx).add(&z10.mul(&tx));
        let z1: T = z01.mul(&one_minus_tx).add(&z11.mul(&tx));
        let one_minus_ty: T = one.sub(&ty);
        z0.mul(&one_minus_ty).add(&z1.mul(&ty))
    }
}

} // verus!
