//! Spatial grid construction for the finite-difference solver.
//!
//! A mesher holds an ordered set of node centers together with the
//! forward and backward spacings of the interior nodes.  Centers must
//! be strictly increasing; construction validates this and fails with
//! a typed error otherwise.  A log-space mesher wraps another mesher
//! built over log-price coordinates and exposes exponentiated
//! locations for payoff evaluation.

use vstd::prelude::*;
use crate::fixed::{Fixed, fx_add, fx_sub, fx_mul, fx_div, fx_clip, SCALE};
use crate::trans::fx_exp;
use crate::scalar::{Real, vals, wf_seq};

verus! {

/// Why a mesher could not be built.
#[derive(Clone, Copy, Debug, PartialEq, Eq, Structural)]
pub enum MesherError {
    /// Fewer than two nodes were requested or supplied.
    InsufficientPoints,
    /// The node centers are not strictly increasing.
    NotMonotonic,
}

/// Adjacent entries strictly increase.
pub open spec fn seq_increasing(s: Seq<int>) -> bool {
    forall|i: int| 0 <= i < s.len() - 1 ==> #[trigger] s[i] < s[i + 1]
}

/// The centers an equally-spaced mesher lays out between `start` and
/// `end` (inclusive): `c_i = start + i * dx` with
/// `dx = (end - start) / (size - 1)`.
pub open spec fn uniform_centers(start: int, end: int, size: int) -> Seq<int> {
    let dx = fx_div(fx_sub(end, start), fx_clip((size - 1) * (SCALE as int)));
    Seq::new(size as nat, |i: int| fx_add(start, fx_mul(fx_clip(i * (SCALE as int)), dx)))
}

/// Spacing arrays match the centers: forward spacing to the next
/// node, backward spacing to the previous one, zero at the unused
/// boundary entries.
pub open spec fn spacings_wf(c: Seq<int>, hp: Seq<int>, hm: Seq<int>) -> bool {
    &&& hp.len() == c.len()
    &&& hm.len() == c.len()
    &&& (forall|i: int| 0 <= i < c.len() - 1 ==> #[trigger] hp[i] == fx_sub(c[i + 1], c[i]))
    &&& (c.len() > 0 ==> hp[c.len() - 1] == 0)
    &&& (forall|i: int| 1 <= i < c.len() ==> #[trigger] hm[i] == fx_sub(c[i], c[i - 1]))
    &&& (c.len() > 0 ==> hm[0] == 0)
}

/// The capability contract of a one-dimensional mesher: ordered
/// centers, interior spacings, and an actual-price location per node.
pub trait Mesher1d<T: Real>: Sized {
    /// Primal mantissas of the node centers.
    spec fn s_centers(&self) -> Seq<int>;

    /// Primal mantissas of the forward spacings.
    spec fn s_hp(&self) -> Seq<int>;

    /// Primal mantissas of the backward spacings.
    spec fn s_hm(&self) -> Seq<int>;

    /// Primal mantissas of the actual-price locations.
    spec fn s_loc(&self) -> Seq<int>;

    /// Structural well-formedness.
    spec fn m_wf(&self) -> bool;

    /// What well-formedness guarantees: at least two strictly
    /// increasing centers, and spacing and location arrays that match
    /// them.
    proof fn wf_facts(&self)
        requires
            self.m_wf(),
        ensures
            self.s_centers().len() >= 2,
            self.s_loc().len() == self.s_centers().len(),
            seq_increasing(self.s_centers()),
            spacings_wf(self.s_centers(), self.s_hp(), self.s_hm()),
    ;

    /// The number of nodes.
    fn size(&self) -> (n: usize)
        requires
            self.m_wf(),
        ensures
            n == self.s_centers().len(),
    ;

    /// The node centers.
    fn centers(&self) -> (v: &Vec<T>)
        requires
            self.m_wf(),
        ensures
            vals(v@) == self.s_centers(),
            wf_seq(v@),
    ;

    /// Forward spacings.
    fn h_plus(&self) -> (v: &Vec<T>)
        requires
            self.m_wf(),
        ensures
            vals(v@) == self.s_hp(),
            wf_seq(v@),
    ;

    /// Backward spacings.
    fn h_minus(&self) -> (v: &Vec<T>)
        requires
            self.m_wf(),
        ensures
            vals(v@) == self.s_hm(),
            wf_seq(v@),
    ;

    /// The actual-price coordinate of node `index`.
    fn location(&self, index: usize) -> (r: T)
        requires
            self.m_wf(),
            index < self.s_centers().len(),
        ensures
            r.wf(),
            r.val_m() == self.s_loc()[index as int],
    ;
}

/// An equally-spaced mesher (up to rounding of the step).
pub struct UniformMesher1d<T: Real> {
    centers: Vec<T>,
    h_plus: Vec<T>,
    h_minus: Vec<T>,
}

impl<T: Real> UniformMesher1d<T> {
    /// Structural invariant: matching lengths, strictly increasing
    /// centers, spacings derived by differencing.
    pub closed spec fn wf(&self) -> bool {
        &&& self.centers.len() >= 2
        &&& wf_seq(self.centers@)
        &&& wf_seq(self.h_plus@)
        &&& wf_seq(self.h_minus@)
        &&& seq_increasing(vals(self.centers@))
        &&& spacings_wf(vals(self.centers@), vals(self.h_plus@), vals(self.h_minus@))
    }

    /// Build from explicitly supplied centers, which must number at
    /// least two and be strictly increasing; the spacing arrays are
    /// derived by differencing adjacent centers.
    pub fn from_centers(centers: Vec<T>) -> (res: Result<UniformMesher1d<T>, MesherError>)
        requires
            wf_seq(centers@),
        ensures
            (res matches Err(e) && e == MesherError::InsufficientPoints) <==> centers.len() < 2,
            (res matches Err(e) && e == MesherError::NotMonotonic) <==> (centers.len() >= 2
                && !seq_increasing(vals(centers@))),
            res matches Ok(m) ==> m.wf() && m.s_centers() == vals(centers@),
    {
        let n: usize = centers.len();
        if n < 2 {
            return Err(MesherError::InsufficientPoints);
        }
        let mut i: usize = 0;
        while i < n - 1
            invariant
                0 <= i <= n - 1,
                n == centers.len(),
                n >= 2,
                wf_seq(centers@),
                forall|j: int| 0 <= j < i ==> #[trigger] vals(centers@)[j] < vals(centers@)[j + 1],
            decreases n - 1 - i,
        {
            if !centers[i].to_fixed().lt(&centers[i + 1].to_fixed()) {
                proof {
                    assert(!(vals(centers@)[i as int] < vals(centers@)[i as int + 1]));
                    assert(!seq_increasing(vals(centers@)));
                }
                return Err(MesherError::NotMonotonic);
            }
            i = i + 1;
        }
        let mut h_plus: Vec<T> = Vec::new();
        let mut h_minus: Vec<T> = Vec::new();
        h_minus.push(T::lift(Fixed::zero()));
        let mut k: usize = 0;
        while k < n - 1
            invariant
                0 <= k <= n - 1,
                n == centers.len(),
                n >= 2,
                wf_seq(centers@),
                h_plus.len() == k,
                h_minus.len() == k + 1,
                wf_seq(h_plus@),
                wf_seq(h_minus@),
                forall|j: int|
                    0 <= j < k ==> (#[trigger] h_plus[j]).val_m() == fx_sub(
                        vals(centers@)[j + 1],
                        vals(centers@)[j],
                    ),
                forall|j: int|
                    1 <= j < k + 1 ==> (#[trigger] h_minus[j]).val_m() == fx_sub(
                        vals(centers@)[j],
                        vals(centers@)[j - 1],
                    ),
                h_minus[0].val_m() == 0,
            decreases n - 1 - k,
        {
            let d: T = centers[k + 1].sub(&centers[k]);
            h_plus.push(d.dup());
            h_minus.push(d);
            k = k + 1;
        }
        h_plus.push(T::lift(Fixed::zero()));
        Ok(UniformMesher1d { centers, h_plus, h_minus })
    }

    /// Lay `size` equally spaced nodes from `start` to `end`.  Fails
    /// when fewer than two nodes are requested, or when rounding (or
    /// a nonpositive span) collapses adjacent nodes.
    pub fn new(start: T, end: T, size: usize) -> (res: Result<UniformMesher1d<T>, MesherError>)
        requires
            start.wf(),
            end.wf(),
            size <= 0x7fff_ffff_ffff_ffff,
        ensures
            (res matches Err(e) && e == MesherError::InsufficientPoints) <==> size < 2,
            size >= 2 ==> {
                let cand = uniform_centers(start.val_m(), end.val_m(), size as int);
                &&& ((res matches Err(e) && e == MesherError::NotMonotonic) <==> !seq_increasing(
                    cand,
                ))
                &&& (res matches Ok(m) ==> m.wf() && m.s_centers() == cand)
            },
    {
        if size < 2 {
            return Err(MesherError::InsufficientPoints);
        }
        let nm1: u64 = (size - 1) as u64;
        let dx: T = end.sub(&start).div(&T::lift(Fixed::from_int(nm1 as i64)));
        let mut centers: Vec<T> = Vec::new();
        let mut i: usize = 0;
        while i < size
            invariant
                0 <= i <= size,
                size <= 0x7fff_ffff_ffff_ffff,
                start.wf(),
                end.wf(),
                dx.wf(),
                nm1 == size - 1,
                dx.val_m() == fx_div(
                    fx_sub(end.val_m(), start.val_m()),
                    fx_clip((size - 1) * (SCALE as int)),
                ),
                centers.len() == i,
                wf_seq(centers@),
                forall|j: int|
                    0 <= j < i ==> (#[trigger] centers[j]).val_m() == uniform_centers(
                        start.val_m(),
                        end.val_m(),
                        size as int,
                    )[j],
            decreases size - i,
        {
            let step: T = T::lift(Fixed::from_int(i as i64)).mul(&dx);
            centers.push(start.add(&step));
            i = i + 1;
        }
        proof {
            assert(vals(centers@) =~= uniform_centers(start.val_m(), end.val_m(), size as int));
        }
        Self::from_centers(centers)
    }
}

impl<T: Real> Mesher1d<T> for UniformMesher1d<T> {
    closed spec fn s_centers(&self) -> Seq<int> {
        vals(self.centers@)
    }

    closed spec fn s_hp(&self) -> Seq<int> {
        vals(self.h_plus@)
    }

    closed spec fn s_hm(&self) -> Seq<int> {
        vals(self.h_minus@)
    }

    closed spec fn s_loc(&self) -> Seq<int> {
        vals(self.centers@)
    }

    open spec fn m_wf(&self) -> bool {
        self.wf()
    }

    proof fn wf_facts(&self) {
    }

    fn size(&self) -> (n: usize) {
        self.centers.len()
    }

    fn centers(&self) -> (v: &Vec<T>) {
        &self.centers
    }

    fn h_plus(&self) -> (v: &Vec<T>) {
        &self.h_plus
    }

    fn h_minus(&self) -> (v: &Vec<T>) {
        &self.h_minus
    }

    fn location(&self, index: usize) -> (r: T) {
        self.centers[index].dup()
    }
}

/// A log-space mesher: wraps a mesher laid out in log-price
/// coordinates and exposes exponentiated (actual price) locations,
/// while the discretization keeps working in log-space.
pub struct FdmLog1dMesher<T: Real, M: Mesher1d<T>> {
    underlying: M,
    exp_centers: Vec<T>,
}

impl<T: Real, M: Mesher1d<T>> FdmLog1dMesher<T, M> {
    /// Wrap `mesher`, precomputing `exp` of every center.
    pub fn new(mesher: M) -> (r: FdmLog1dMesher<T, M>)
        requires
            mesher.m_wf(),
        ensures
            r.m_wf(),
            r.s_centers() == mesher.s_centers(),
            r.s_hp() == mesher.s_hp(),
            r.s_hm() == mesher.s_hm(),
            forall|i: int|
                0 <= i < mesher.s_centers().len() ==> #[trigger] r.s_loc()[i] == fx_exp(
                    mesher.s_centers()[i],
                ),
    {
        proof {
            mesher.wf_facts();
        }
        let cs: &Vec<T> = mesher.centers();
        let n: usize = cs.len();
        let mut exp_centers: Vec<T> = Vec::new();
        let mut i: usize = 0;
        while i < n
            invariant
                0 <= i <= n,
                n == cs.len(),
                wf_seq(cs@),
                exp_centers.len() == i,
                wf_seq(exp_centers@),
                forall|j: int|
                    0 <= j < i ==> (#[trigger] exp_centers[j]).val_m() == fx_exp(vals(cs@)[j]),
            decreases n - i,
        {
            exp_centers.push(cs[i].exp());
            i = i + 1;
        }
        FdmLog1dMesher { underlying: mesher, exp_centers }
    }
}

impl<T: Real, M: Mesher1d<T>> Mesher1d<T> for FdmLog1dMesher<T, M> {
    closed spec fn s_centers(&self) -> Seq<int> {
        self.underlying.s_centers()
    }

    closed spec fn s_hp(&self) -> Seq<int> {
        self.underlying.s_hp()
    }

    closed spec fn s_hm(&self) -> Seq<int> {
        self.underlying.s_hm()
    }

    closed spec fn s_loc(&self) -> Seq<int> {
        vals(self.exp_centers@)
    }

    closed spec fn m_wf(&self) -> bool {
        &&& self.underlying.m_wf()
        &&& wf_seq(self.exp_centers@)
        &&& self.exp_centers.len() == self.underlying.s_centers().len()
    }

    proof fn wf_facts(&self) {
        self.underlying.wf_facts();
    }

    fn size(&self) -> (n: usize) {
        self.underlying.size()
    }

    fn centers(&self) -> (v: &Vec<T>) {
        self.underlying.centers()
    }

    fn h_plus(&self) -> (v: &Vec<T>) {
        self.underlying.h_plus()
    }

    fn h_minus(&self) -> (v: &Vec<T>) {
        self.underlying.h_minus()
    }

    fn location(&self, index: usize) -> (r: T) {
        self.exp_centers[index].dup()
    }
}

} // verus!
