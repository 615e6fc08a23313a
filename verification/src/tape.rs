//! Reverse-mode automatic differentiation over an explicit tape.
//!
//! Every operation on a [`ReverseGradient`] appends exactly one node
//! to the caller-owned [`Tape`], recording its operands' indices and
//! local partial-derivative weights.  Nodes only reference earlier
//! indices, so the record is acyclic and a single linear backward
//! sweep propagates adjoints from the output to every input.  The
//! tape must be cleared between independent evaluations; reading a
//! value recorded on a different (or cleared) tape is ruled out by
//! the contracts' index preconditions.

use vstd::prelude::*;
use crate::fixed::{Fixed, fx_add, fx_sub, fx_mul, fx_div, fx_max, fx_clip, SCALE};
use crate::trans::{fx_exp, fx_ln, fx_sqrt, fx_powi, fx_powf, fx_norm_cdf, fx_norm_pdf};
use crate::scalar::vals;

verus! {

/// One recorded operation: the operands' indices with their local
/// partial-derivative weights.
pub struct TapeNode {
    /// `(parent index, local partial)` pairs.
    pub parents: Vec<(usize, Fixed)>,
}

/// The computation record reverse mode replays backward.
pub struct Tape {
    /// The recorded nodes, in evaluation order.
    pub nodes: Vec<TapeNode>,
}

impl Tape {
    /// Nodes only reference strictly earlier nodes.
    pub open spec fn wf(&self) -> bool {
        forall|i: int, j: int|
            0 <= i < self.nodes@.len() && 0 <= j < self.nodes@[i].parents@.len()
                ==> (#[trigger] self.nodes@[i].parents@[j]).0 < i
    }

    /// An empty tape.
    pub fn new() -> (t: Tape)
        ensures
            t.nodes@.len() == 0,
            t.wf(),
    {
        Tape { nodes: Vec::new() }
    }

    /// Forget every recorded node; handles into the old record
    /// become stale and must not be used again.
    pub fn clear(&mut self)
        ensures
            final(self).nodes@.len() == 0,
            final(self).wf(),
    {
        self.nodes.clear();
    }

    /// The number of recorded nodes.
    pub fn len(&self) -> (n: usize)
        ensures
            n == self.nodes@.len(),
    {
        self.nodes.len()
    }

    /// Append a node with no parents.
    fn push0(&mut self) -> (idx: usize)
        requires
            old(self).wf(),
        ensures
            final(self).wf(),
            idx == old(self).nodes@.len(),
            final(self).nodes@.len() == idx + 1,
            final(self).nodes@.subrange(0, idx as int) == old(self).nodes@,
            final(self).nodes@[idx as int].parents@.len() == 0,
    {
        let idx: usize = self.nodes.len();
        self.nodes.push(TapeNode { parents: Vec::new() });
        proof {
            assert(final(self).nodes@.subrange(0, idx as int) =~= old(self).nodes@);
        }
        idx
    }

    /// Append a node with one parent.
    fn push1(&mut self, p: usize, w: Fixed) -> (idx: usize)
        requires
            old(self).wf(),
            p < old(self).nodes@.len(),
        ensures
            final(self).wf(),
            idx == old(self).nodes@.len(),
            final(self).nodes@.len() == idx + 1,
            final(self).nodes@.subrange(0, idx as int) == old(self).nodes@,
            final(self).nodes@[idx as int].parents@.len() == 1,
            final(self).nodes@[idx as int].parents@[0] == (p, w),
    {
        let idx: usize = self.nodes.len();
        let mut parents: Vec<(usize, Fixed)> = Vec::new();
        parents.push((p, w));
        self.nodes.push(TapeNode { parents });
        proof {
            assert(final(self).nodes@.subrange(0, idx as int) =~= old(self).nodes@);
        }
        idx
    }

    /// Append a node with two parents.
    fn push2(&mut self, p1: usize, w1: Fixed, p2: usize, w2: Fixed) -> (idx: usize)
        requires
            old(self).wf(),
            p1 < old(self).nodes@.len(),
            p2 < old(self).nodes@.len(),
        ensures
            final(self).wf(),
            idx == old(self).nodes@.len(),
            final(self).nodes@.len() == idx + 1,
            final(self).nodes@.subrange(0, idx as int) == old(self).nodes@,
            final(self).nodes@[idx as int].parents@.len() == 2,
            final(self).nodes@[idx as int].parents@[0] == (p1, w1),
            final(self).nodes@[idx as int].parents@[1] == (p2, w2),
    {
        let idx: usize = self.nodes.len();
        let mut parents: Vec<(usize, Fixed)> = Vec::new();
        parents.push((p1, w1));
        parents.push((p2, w2));
        self.nodes.push(TapeNode { parents });
        proof {
            assert(final(self).nodes@.subrange(0, idx as int) =~= old(self).nodes@);
        }
        idx
    }
}

/// Apply the first `j` parent contributions of one node: each parent
/// `p` with weight `w` receives `w` times the node's adjoint `gi`.
pub open spec fn apply_parents_s(
    g: Seq<int>,
    parents: Seq<(usize, Fixed)>,
    gi: int,
    j: nat,
) -> Seq<int>
    decreases j,
{
    if j == 0 {
        g
    } else {
        let g2 = apply_parents_s(g, parents, gi, (j - 1) as nat);
        let p = parents[j - 1].0 as int;
        let w = parents[j - 1].1.m();
        g2.update(p, fx_add(g2[p], fx_mul(w, gi)))
    }
}

/// The backward sweep over nodes `i` down to `0`.
pub open spec fn sweep_s(nodes: Seq<TapeNode>, g: Seq<int>, i: int) -> Seq<int>
    decreases i + 1,
{
    if i < 0 {
        g
    } else {
        sweep_s(
            nodes,
            apply_parents_s(g, nodes[i].parents@, g[i], nodes[i].parents@.len()),
            i - 1,
        )
    }
}

/// The initial adjoints: one at the output node, zero elsewhere.
pub open spec fn seed_s(n: nat, out: int) -> Seq<int> {
    Seq::new(n, |i: int| if i == out {
        SCALE as int
    } else {
        0
    })
}

/// The adjoints a backward sweep produces when node `out` is seeded
/// with adjoint one.
pub open spec fn adjoints_s(nodes: Seq<TapeNode>, out: int) -> Seq<int> {
    sweep_s(nodes, seed_s(nodes.len(), out), nodes.len() - 1)
}

/// A value recorded on a tape: the primal value and the index of the
/// node that produced it.
#[derive(Clone, Copy, Debug)]
pub struct ReverseGradient {
    /// The primal value.
    pub val: Fixed,
    /// The producing node's index on the tape.
    pub index: usize,
}

impl ReverseGradient {
    /// This value lives on `t`.
    pub open spec fn on(&self, t: Tape) -> bool {
        self.index < t.nodes@.len()
    }

    /// Record an independent input.
    pub fn var(t: &mut Tape, val: Fixed) -> (r: ReverseGradient)
        requires
            old(t).wf(),
        ensures
            final(t).wf(),
            r.val == val,
            r.index == old(t).nodes@.len(),
            final(t).nodes@.len() == old(t).nodes@.len() + 1,
            final(t).nodes@.subrange(0, old(t).nodes@.len() as int) == old(t).nodes@,
            final(t).nodes@[r.index as int].parents@.len() == 0,
    {
        let index: usize = t.push0();
        ReverseGradient { val, index }
    }

    /// Sum: both operands contribute with weight one.
    pub fn add(&self, o: &ReverseGradient, t: &mut Tape) -> (r: ReverseGradient)
        requires
            old(t).wf(),
            self.on(*old(t)),
            o.on(*old(t)),
        ensures
            final(t).wf(),
            r.val.m() == fx_add(self.val.m(), o.val.m()),
            r.index == old(t).nodes@.len(),
            final(t).nodes@.len() == old(t).nodes@.len() + 1,
            final(t).nodes@.subrange(0, old(t).nodes@.len() as int) == old(t).nodes@,
            final(t).nodes@[r.index as int].parents@.len() == 2,
            final(t).nodes@[r.index as int].parents@[0].0 == self.index,
            final(t).nodes@[r.index as int].parents@[0].1.m() == SCALE as int,
            final(t).nodes@[r.index as int].parents@[1].0 == o.index,
            final(t).nodes@[r.index as int].parents@[1].1.m() == SCALE as int,
    {
        let index: usize = t.push2(self.index, Fixed::one(), o.index, Fixed::one());
        ReverseGradient { val: self.val.add(&o.val), index }
    }

    /// Difference: the right operand contributes with weight minus
    /// one.
    pub fn sub(&self, o: &ReverseGradient, t: &mut Tape) -> (r: ReverseGradient)
        requires
            old(t).wf(),
            self.on(*old(t)),
            o.on(*old(t)),
        ensures
            final(t).wf(),
            r.val.m() == fx_sub(self.val.m(), o.val.m()),
            r.index == old(t).nodes@.len(),
            final(t).nodes@.len() == old(t).nodes@.len() + 1,
            final(t).nodes@.subrange(0, old(t).nodes@.len() as int) == old(t).nodes@,
            final(t).nodes@[r.index as int].parents@.len() == 2,
            final(t).nodes@[r.index as int].parents@[0].0 == self.index,
            final(t).nodes@[r.index as int].parents@[0].1.m() == SCALE as int,
            final(t).nodes@[r.index as int].parents@[1].0 == o.index,
            final(t).nodes@[r.index as int].parents@[1].1.m() == -(SCALE as int),
    {
        let index: usize = t.push2(self.index, Fixed::one(), o.index, Fixed::one().neg());
        ReverseGradient { val: self.val.sub(&o.val), index }
    }

    /// Product rule weights: each operand weighted by the other's
    /// value.
    pub fn mul(&self, o: &ReverseGradient, t: &mut Tape) -> (r: ReverseGradient)
        requires
            old(t).wf(),
            self.on(*old(t)),
            o.on(*old(t)),
        ensures
            final(t).wf(),
            r.val.m() == fx_mul(self.val.m(), o.val.m()),
            r.index == old(t).nodes@.len(),
            final(t).nodes@.len() == old(t).nodes@.len() + 1,
            final(t).nodes@.subrange(0, old(t).nodes@.len() as int) == old(t).nodes@,
            final(t).nodes@[r.index as int].parents@.len() == 2,
            final(t).nodes@[r.index as int].parents@[0] == (self.index, o.val),
            final(t).nodes@[r.index as int].parents@[1] == (o.index, self.val),
    {
        let index: usize = t.push2(self.index, o.val, o.index, self.val);
        ReverseGradient { val: self.val.mul(&o.val), index }
    }

    /// Quotient rule weights: `1/v` for the numerator and `-u/v^2`
    /// for the denominator.
    pub fn div(&self, o: &ReverseGradient, t: &mut Tape) -> (r: ReverseGradient)
        requires
            old(t).wf(),
            self.on(*old(t)),
            o.on(*old(t)),
        ensures
            final(t).wf(),
            r.val.m() == fx_div(self.val.m(), o.val.m()),
            r.index == old(t).nodes@.len(),
            final(t).nodes@.len() == old(t).nodes@.len() + 1,
            final(t).nodes@.subrange(0, old(t).nodes@.len() as int) == old(t).nodes@,
            final(t).nodes@[r.index as int].parents@.len() == 2,
            final(t).nodes@[r.index as int].parents@[0].0 == self.index,
            final(t).nodes@[r.index as int].parents@[0].1.m() == fx_div(
                SCALE as int,
                o.val.m(),
            ),
            final(t).nodes@[r.index as int].parents@[1].0 == o.index,
            final(t).nodes@[r.index as int].parents@[1].1.m() == fx_div(
                -self.val.m(),
                fx_mul(o.val.m(), o.val.m()),
            ),
    {
        let w1: Fixed = Fixed::one().div(&o.val);
        let w2: Fixed = self.val.neg().div(&o.val.mul(&o.val));
        let index: usize = t.push2(self.index, w1, o.index, w2);
        ReverseGradient { val: self.val.div(&o.val), index }
    }

    /// Negation: weight minus one.
    pub fn neg(&self, t: &mut Tape) -> (r: ReverseGradient)
        requires
            old(t).wf(),
            self.on(*old(t)),
        ensures
            final(t).wf(),
            r.val.m() == -self.val.m(),
            r.index == old(t).nodes@.len(),
            final(t).nodes@.len() == old(t).nodes@.len() + 1,
            final(t).nodes@.subrange(0, old(t).nodes@.len() as int) == old(t).nodes@,
            final(t).nodes@[r.index as int].parents@.len() == 1,
            final(t).nodes@[r.index as int].parents@[0].0 == self.index,
            final(t).nodes@[r.index as int].parents@[0].1.m() == -(SCALE as int),
    {
        let index: usize = t.push1(self.index, Fixed::one().neg());
        ReverseGradient { val: self.val.neg(), index }
    }

    /// The larger operand's value, with subgradient weights picking
    /// that operand.
    pub fn max(&self, o: &ReverseGradient, t: &mut Tape) -> (r: ReverseGradient)
        requires
            old(t).wf(),
            self.on(*old(t)),
            o.on(*old(t)),
        ensures
            final(t).wf(),
            r.val.m() == fx_max(self.val.m(), o.val.m()),
            r.index == old(t).nodes@.len(),
            final(t).nodes@.len() == old(t).nodes@.len() + 1,
            final(t).nodes@.subrange(0, old(t).nodes@.len() as int) == old(t).nodes@,
            final(t).nodes@[r.index as int].parents@.len() == 2,
            final(t).nodes@[r.index as int].parents@[0].0 == self.index,
            final(t).nodes@[r.index as int].parents@[1].0 == o.index,
            self.val.m() >= o.val.m() ==> final(t).nodes@[r.index as int].parents@[0].1.m()
                == SCALE as int && final(t).nodes@[r.index as int].parents@[1].1.m() == 0,
            self.val.m() < o.val.m() ==> final(t).nodes@[r.index as int].parents@[0].1.m() == 0
                && final(t).nodes@[r.index as int].parents@[1].1.m() == SCALE as int,
    {
        if o.val.lt(&self.val) || self.val.eq_val(&o.val) {
            let index: usize = t.push2(self.index, Fixed::one(), o.index, Fixed::zero());
            ReverseGradient { val: self.val, index }
        } else {
            let index: usize = t.push2(self.index, Fixed::zero(), o.index, Fixed::one());
            ReverseGradient { val: o.val, index }
        }
    }

    /// Exponential: weight is the new value.
    pub fn exp(&self, t: &mut Tape) -> (r: ReverseGradient)
        requires
            old(t).wf(),
            self.on(*old(t)),
        ensures
            final(t).wf(),
            r.val.m() == fx_exp(self.val.m()),
            r.index == old(t).nodes@.len(),
            final(t).nodes@.len() == old(t).nodes@.len() + 1,
            final(t).nodes@.subrange(0, old(t).nodes@.len() as int) == old(t).nodes@,
            final(t).nodes@[r.index as int].parents@.len() == 1,
            final(t).nodes@[r.index as int].parents@[0].0 == self.index,
            final(t).nodes@[r.index as int].parents@[0].1.m() == fx_exp(self.val.m()),
    {
        let res: Fixed = self.val.exp();
        let index: usize = t.push1(self.index, res);
        ReverseGradient { val: res, index }
    }

    /// Logarithm: weight `1/x`.
    pub fn ln(&self, t: &mut Tape) -> (r: ReverseGradient)
        requires
            old(t).wf(),
            self.on(*old(t)),
        ensures
            final(t).wf(),
            r.val.m() == fx_ln(self.val.m()),
            r.index == old(t).nodes@.len(),
            final(t).nodes@.len() == old(t).nodes@.len() + 1,
            final(t).nodes@.subrange(0, old(t).nodes@.len() as int) == old(t).nodes@,
            final(t).nodes@[r.index as int].parents@.len() == 1,
            final(t).nodes@[r.index as int].parents@[0].0 == self.index,
            final(t).nodes@[r.index as int].parents@[0].1.m() == fx_div(
                SCALE as int,
                self.val.m(),
            ),
    {
        let w: Fixed = Fixed::one().div(&self.val);
        let index: usize = t.push1(self.index, w);
        ReverseGradient { val: self.val.ln(), index }
    }

    /// Square root: weight `1/(2 sqrt x)`.
    pub fn sqrt(&self, t: &mut Tape) -> (r: ReverseGradient)
        requires
            old(t).wf(),
            self.on(*old(t)),
        ensures
            final(t).wf(),
            r.val.m() == fx_sqrt(self.val.m()),
            r.index == old(t).nodes@.len(),
            final(t).nodes@.len() == old(t).nodes@.len() + 1,
            final(t).nodes@.subrange(0, old(t).nodes@.len() as int) == old(t).nodes@,
            final(t).nodes@[r.index as int].parents@.len() == 1,
            final(t).nodes@[r.index as int].parents@[0].0 == self.index,
            final(t).nodes@[r.index as int].parents@[0].1.m() == fx_div(
                SCALE as int,
                fx_mul(fx_clip(2 * (SCALE as int)), fx_sqrt(self.val.m())),
            ),
    {
        let res: Fixed = self.val.sqrt();
        let w: Fixed = Fixed::one().div(&Fixed::from_int(2).mul(&res));
        let index: usize = t.push1(self.index, w);
        ReverseGradient { val: res, index }
    }

    /// Integer power: weight `n x^(n-1)`.
    pub fn powi(&self, n: i32, t: &mut Tape) -> (r: ReverseGradient)
        requires
            old(t).wf(),
            self.on(*old(t)),
        ensures
            final(t).wf(),
            r.val.m() == fx_powi(self.val.m(), n as int),
            r.index == old(t).nodes@.len(),
            final(t).nodes@.len() == old(t).nodes@.len() + 1,
            final(t).nodes@.subrange(0, old(t).nodes@.len() as int) == old(t).nodes@,
            final(t).nodes@[r.index as int].parents@.len() == 1,
            final(t).nodes@[r.index as int].parents@[0].0 == self.index,
            final(t).nodes@[r.index as int].parents@[0].1.m() == fx_mul(
                fx_clip((n as int) * (SCALE as int)),
                fx_powi(self.val.m(), n as int - 1),
            ),
    {
        let factor: Fixed = Fixed::from_int(n as i64).mul(&self.val.powi(n as i64 - 1));
        let index: usize = t.push1(self.index, factor);
        ReverseGradient { val: self.val.powi(n as i64), index }
    }

    /// Real power: base weighted by `g x^(g-1)`, exponent weighted by
    /// `x^g ln x`.
    pub fn powf(&self, o: &ReverseGradient, t: &mut Tape) -> (r: ReverseGradient)
        requires
            old(t).wf(),
            self.on(*old(t)),
            o.on(*old(t)),
        ensures
            final(t).wf(),
            r.val.m() == fx_powf(self.val.m(), o.val.m()),
            r.index == old(t).nodes@.len(),
            final(t).nodes@.len() == old(t).nodes@.len() + 1,
            final(t).nodes@.subrange(0, old(t).nodes@.len() as int) == old(t).nodes@,
            final(t).nodes@[r.index as int].parents@.len() == 2,
            final(t).nodes@[r.index as int].parents@[0].0 == self.index,
            final(t).nodes@[r.index as int].parents@[0].1.m() == fx_mul(
                o.val.m(),
                fx_powf(self.val.m(), fx_sub(o.val.m(), SCALE as int)),
            ),
            final(t).nodes@[r.index as int].parents@[1].0 == o.index,
            final(t).nodes@[r.index as int].parents@[1].1.m() == fx_mul(
                fx_powf(self.val.m(), o.val.m()),
                fx_ln(self.val.m()),
            ),
    {
        let val: Fixed = self.val.powf(&o.val);
        let d_base: Fixed = o.val.mul(&self.val.powf(&o.val.sub(&Fixed::one())));
        let d_exp: Fixed = val.mul(&self.val.ln());
        let index: usize = t.push2(self.index, d_base, o.index, d_exp);
        ReverseGradient { val, index }
    }

    /// Normal CDF: weight is the normal density at the value.
    pub fn norm_cdf(&self, t: &mut Tape) -> (r: ReverseGradient)
        requires
            old(t).wf(),
            self.on(*old(t)),
        ensures
            final(t).wf(),
            r.val.m() == fx_norm_cdf(self.val.m()),
            r.index == old(t).nodes@.len(),
            final(t).nodes@.len() == old(t).nodes@.len() + 1,
            final(t).nodes@.subrange(0, old(t).nodes@.len() as int) == old(t).nodes@,
            final(t).nodes@[r.index as int].parents@.len() == 1,
            final(t).nodes@[r.index as int].parents@[0].0 == self.index,
            final(t).nodes@[r.index as int].parents@[0].1.m() == fx_norm_pdf(self.val.m()),
    {
        let pdf: Fixed = self.val.norm_pdf();
        let index: usize = t.push1(self.index, pdf);
        ReverseGradient { val: self.val.norm_cdf(), index }
    }

    /// Seed this value's adjoint with one and sweep the record
    /// backward, producing every node's sensitivity.
    pub fn backward(&self, t: &Tape) -> (g: Vec<Fixed>)
        requires
            t.wf(),
            self.on(*t),
        ensures
            g.len() == t.nodes@.len(),
            vals(g@) =~= adjoints_s(t.nodes@, self.index as int),
    {
        let n: usize = t.len();
        let mut g: Vec<Fixed> = Vec::new();
        let mut z: usize = 0;
        while z < n
            invariant
                0 <= z <= n,
                g.len() == z,
                forall|i: int| 0 <= i < z ==> (#[trigger] g[i]).m() == 0,
            decreases n - z,
        {
            g.push(Fixed::zero());
            z = z + 1;
        }
        g.set(self.index, Fixed::one());
        proof {
            assert(vals(g@) =~= seed_s(t.nodes@.len(), self.index as int));
        }
        let mut i: usize = n;
        while i > 0
            invariant
                0 <= i <= n,
                n == t.nodes@.len(),
                t.wf(),
                g.len() == n,
                sweep_s(t.nodes@, vals(g@), i as int - 1) == adjoints_s(
                    t.nodes@,
                    self.index as int,
                ),
            decreases i,
        {
            i = i - 1;
            let gi: Fixed = g[i];
            let np: usize = t.nodes[i].parents.len();
            let ghost g_entry: Seq<int> = vals(g@);
            let mut j: usize = 0;
            while j < np
                invariant
                    0 <= j <= np,
                    i < n,
                    n == t.nodes@.len(),
                    t.wf(),
                    np == t.nodes@[i as int].parents@.len(),
                    g.len() == n,
                    gi.m() == g_entry[i as int],
                    vals(g@) == apply_parents_s(
                        g_entry,
                        t.nodes@[i as int].parents@,
                        gi.m(),
                        j as nat,
                    ),
                decreases np - j,
            {
                let (p, w): (usize, Fixed) = t.nodes[i].parents[j];
                proof {
                    assert(t.nodes@[i as int].parents@[j as int].0 < i);
                }
                let upd: Fixed = g[p].add(&w.mul(&gi));
                g.set(p, upd);
                proof {
                    assert(vals(g@) =~= apply_parents_s(
                        g_entry,
                        t.nodes@[i as int].parents@,
                        gi.m(),
                        (j + 1) as nat,
                    ));
                }
                j = j + 1;
            }
        }
        g
    }
}

} // verus!
