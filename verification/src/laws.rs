//! Laws the library's contracts combine into.
//!
//! Each proof function here states, once and for all inputs, a
//! property that relates several of the library's operations: the
//! Thomas solver reproduces the right-hand side of an identity
//! system, the first- and second-order forward carriers state the
//! same first-derivative formulas, a single recorded reverse-mode
//! operation yields exactly the forward-mode gradient, and the
//! second-order product rule is symmetric whenever its sums do not
//! saturate.

use vstd::prelude::*;
use crate::fixed::{fx_add, fx_sub, fx_mul, fx_div, lemma_fx_zero, FX_MAX, SCALE};
use crate::trans::fx_exp;
use crate::solver::{thomas_cp, thomas_dp, thomas_x};
use crate::hess::{Hessian, mul_g_s, mul_h_s};
use crate::grad::Gradient;
use crate::tape::{TapeNode, adjoints_s, apply_parents_s, seed_s, sweep_s};

verus! {

broadcast use crate::fixed::lemma_fx_zero;

/// Dividing or multiplying a representable mantissa by one is exact.
pub proof fn lemma_fx_one_identity(x: int)
    requires
        -(FX_MAX as int) <= x <= FX_MAX as int,
    ensures
        fx_div(x, SCALE as int) == x,
        fx_mul(x, SCALE as int) == x,
        fx_mul(SCALE as int, x) == x,
{
    if x >= 0 {
        assert(x * (SCALE as int) >= 0) by (nonlinear_arith)
            requires
                x >= 0,
        ;
        assert((x * (SCALE as int)) / (SCALE as int) == x) by (nonlinear_arith)
            requires
                x >= 0,
        ;
        assert(((SCALE as int) * x) / (SCALE as int) == x) by (nonlinear_arith)
            requires
                x >= 0,
        ;
        assert((SCALE as int) * x >= 0) by (nonlinear_arith)
            requires
                x >= 0,
        ;
    } else {
        assert(x * (SCALE as int) < 0) by (nonlinear_arith)
            requires
                x < 0,
        ;
        assert((SCALE as int) * x < 0) by (nonlinear_arith)
            requires
                x < 0,
        ;
        assert(-(x * (SCALE as int)) == (-x) * (SCALE as int)) by (nonlinear_arith);
        assert(-((SCALE as int) * x) == (SCALE as int) * (-x)) by (nonlinear_arith);
        assert(((-x) * (SCALE as int)) / (SCALE as int) == -x) by (nonlinear_arith)
            requires
                -x > 0,
        ;
        assert(((SCALE as int) * (-x)) / (SCALE as int) == -x) by (nonlinear_arith)
            requires
                -x > 0,
        ;
    }
}

/// Solving against an identity operator returns the right-hand side
/// unchanged, row for row: the boundary pass-through rows of the
/// assembled systems hand their values straight through the solver.
pub proof fn lemma_solve_identity(a: Seq<int>, b: Seq<int>, c: Seq<int>, r: Seq<int>, i: int)
    requires
        a.len() == r.len(),
        b.len() == r.len(),
        c.len() == r.len(),
        r.len() >= 1,
        forall|j: int| 0 <= j < r.len() ==> #[trigger] a[j] == 0,
        forall|j: int| 0 <= j < r.len() ==> #[trigger] b[j] == SCALE as int,
        forall|j: int| 0 <= j < r.len() ==> #[trigger] c[j] == 0,
        forall|j: int| 0 <= j < r.len() ==> -(FX_MAX as int) <= #[trigger] r[j] <= FX_MAX as int,
        0 <= i < r.len(),
    ensures
        thomas_x(a, b, c, r, r.len() as int, i) == r[i],
    decreases r.len() - i,
{
    lemma_identity_dp(a, b, c, r, i);
    if i >= r.len() - 1 {
    } else {
        lemma_solve_identity(a, b, c, r, i + 1);
        lemma_identity_cp(a, b, c, i);
        lemma_fx_zero(thomas_x(a, b, c, r, r.len() as int, i + 1));
    }
}

/// Forward elimination leaves an identity system's right-hand side
/// untouched.
proof fn lemma_identity_dp(a: Seq<int>, b: Seq<int>, c: Seq<int>, r: Seq<int>, i: int)
    requires
        a.len() == r.len(),
        b.len() == r.len(),
        c.len() == r.len(),
        r.len() >= 1,
        forall|j: int| 0 <= j < r.len() ==> #[trigger] a[j] == 0,
        forall|j: int| 0 <= j < r.len() ==> #[trigger] b[j] == SCALE as int,
        forall|j: int| 0 <= j < r.len() ==> #[trigger] c[j] == 0,
        forall|j: int| 0 <= j < r.len() ==> -(FX_MAX as int) <= #[trigger] r[j] <= FX_MAX as int,
        0 <= i < r.len(),
    ensures
        thomas_dp(a, b, c, r, i) == r[i],
    decreases i,
{
    if i <= 0 {
        lemma_fx_one_identity(r[0]);
    } else {
        lemma_identity_dp(a, b, c, r, i - 1);
        lemma_identity_cp(a, b, c, i - 1);
        lemma_fx_zero(thomas_dp(a, b, c, r, i - 1));
        lemma_fx_zero(thomas_cp(a, b, c, i - 1));
        lemma_fx_one_identity(r[i]);
    }
}

/// The modified upper diagonal of an identity system is zero.
proof fn lemma_identity_cp(a: Seq<int>, b: Seq<int>, c: Seq<int>, i: int)
    requires
        a.len() == b.len(),
        c.len() == b.len(),
        b.len() >= 1,
        forall|j: int| 0 <= j < b.len() ==> #[trigger] a[j] == 0,
        forall|j: int| 0 <= j < b.len() ==> #[trigger] b[j] == SCALE as int,
        forall|j: int| 0 <= j < b.len() ==> #[trigger] c[j] == 0,
        0 <= i < b.len(),
    ensures
        thomas_cp(a, b, c, i) == 0,
    decreases i,
{
    if i <= 0 {
        lemma_fx_zero(SCALE as int);
    } else {
        lemma_identity_cp(a, b, c, i - 1);
        lemma_fx_zero(thomas_cp(a, b, c, i - 1));
        lemma_fx_zero(fx_sub(SCALE as int, 0));
    }
}

/// The first- and second-order forward carriers agree on first
/// derivatives: operands with equal values and equal gradients
/// produce products with equal values and equal gradients, since
/// both carriers' contracts state the very same product rule (the
/// remaining operations' gradient clauses are shared verbatim).
pub proof fn lemma_first_order_agreement_mul(
    ga: Gradient,
    gb: Gradient,
    gr: Gradient,
    ha: Hessian,
    hb: Hessian,
    hr: Hessian,
)
    requires
        ga.val.m() == ha.val.m(),
        gb.val.m() == hb.val.m(),
        forall|i: int| #[trigger] ga.g(i) == ha.g(i),
        forall|i: int| #[trigger] gb.g(i) == hb.g(i),
        gr.val.m() == fx_mul(ga.val.m(), gb.val.m()),
        forall|i: int|
            #[trigger] gr.g(i) == fx_add(
                fx_mul(ga.g(i), gb.val.m()),
                fx_mul(ga.val.m(), gb.g(i)),
            ),
        hr.val.m() == fx_mul(ha.val.m(), hb.val.m()),
        forall|i: int| #[trigger] hr.g(i) == mul_g_s(ha.val.m(), ha.g(i), hb.val.m(), hb.g(i)),
    ensures
        gr.val.m() == hr.val.m(),
        forall|i: int| #[trigger] gr.g(i) == hr.g(i),
{
}

/// A single recorded binary operation replayed backward yields
/// exactly the weights it was recorded with: the reverse sweep of
/// one node over two inputs returns the forward-mode gradient of
/// that operation.
pub proof fn lemma_reverse_matches_forward_single_op(
    nodes: Seq<TapeNode>,
    w0: int,
    w1: int,
)
    requires
        nodes.len() == 3,
        nodes[0].parents@.len() == 0,
        nodes[1].parents@.len() == 0,
        nodes[2].parents@.len() == 2,
        nodes[2].parents@[0].0 == 0,
        nodes[2].parents@[0].1.m() == w0,
        nodes[2].parents@[1].0 == 1,
        nodes[2].parents@[1].1.m() == w1,
        -(FX_MAX as int) <= w0 <= FX_MAX as int,
        -(FX_MAX as int) <= w1 <= FX_MAX as int,
    ensures
        adjoints_s(nodes, 2) == seq![w0, w1, SCALE as int],
{
    let g0 = seed_s(3, 2);
    assert(g0 =~= seq![0, 0, SCALE as int]);
    lemma_fx_one_identity(w0);
    lemma_fx_one_identity(w1);
    let g1 = apply_parents_s(g0, nodes[2].parents@, g0[2], 2);
    assert(apply_parents_s(g0, nodes[2].parents@, g0[2], 0) == g0) by {
        reveal_with_fuel(apply_parents_s, 1);
    }
    assert(g1 =~= seq![w0, w1, SCALE as int]) by {
        reveal_with_fuel(apply_parents_s, 3);
    }
    let g2 = apply_parents_s(g1, nodes[1].parents@, g1[1], 0);
    assert(g2 == g1);
    let g3 = apply_parents_s(g2, nodes[0].parents@, g2[0], 0);
    assert(g3 == g2);
    assert(sweep_s(nodes, g1, 1) == sweep_s(nodes, g2, 0));
    assert(sweep_s(nodes, g2, 0) == sweep_s(nodes, g3, -1));
    assert(adjoints_s(nodes, 2) =~= seq![w0, w1, SCALE as int]);
}

/// The second-order product rule is symmetric in its two index
/// positions whenever the running sums stay inside the representable
/// range (at saturation, the order of clamped additions could
/// otherwise differ), so a product of symmetric carriers has a
/// symmetric matrix.
pub proof fn lemma_mul_h_symmetric(
    av: int,
    agi: int,
    agj: int,
    ah: int,
    bv: int,
    bgi: int,
    bgj: int,
    bh: int,
)
    requires
        ({
            let t = fx_add(fx_mul(ah, bv), fx_mul(av, bh));
            let c1 = fx_mul(agi, bgj);
            let c2 = fx_mul(agj, bgi);
            &&& -(FX_MAX as int) <= t + c1 <= FX_MAX as int
            &&& -(FX_MAX as int) <= t + c2 <= FX_MAX as int
            &&& -(FX_MAX as int) <= t + c1 + c2 <= FX_MAX as int
        }),
    ensures
        mul_h_s(av, agi, agj, ah, bv, bgi, bgj, bh) == mul_h_s(av, agj, agi, ah, bv, bgj, bgi, bh),
{
}


/// The saturating product is commutative.
pub proof fn lemma_fx_mul_comm(a: int, b: int)
    ensures
        fx_mul(a, b) == fx_mul(b, a),
{
    assert(a * b == b * a) by (nonlinear_arith);
}

/// The exponential's second-order chain rule preserves a symmetric
/// matrix exactly: its only index-dependent term is the commutative
/// gradient product.
pub proof fn lemma_exp_preserves_symmetry(a: Hessian, r: Hessian)
    requires
        a.sym(),
        forall|i: int, j: int|
            #[trigger] r.h(i, j) == fx_mul(
                fx_exp(a.val.m()),
                fx_add(a.h(i, j), fx_mul(a.g(i), a.g(j))),
            ),
    ensures
        r.sym(),
{
    assert forall|i: int, j: int| #[trigger] r.h(i, j) == r.h(j, i) by {
        lemma_fx_mul_comm(a.g(i), a.g(j));
    }
}

/// The logarithm's second-order chain rule preserves a symmetric
/// matrix exactly, for the same reason.
pub proof fn lemma_ln_preserves_symmetry(a: Hessian, r: Hessian)
    requires
        a.sym(),
        forall|i: int, j: int|
            #[trigger] r.h(i, j) == fx_sub(
                fx_div(a.h(i, j), a.val.m()),
                fx_div(fx_mul(a.g(i), a.g(j)), fx_mul(a.val.m(), a.val.m())),
            ),
    ensures
        r.sym(),
{
    assert forall|i: int, j: int| #[trigger] r.h(i, j) == r.h(j, i) by {
        lemma_fx_mul_comm(a.g(i), a.g(j));
    }
}

/// Sums and differences preserve symmetry componentwise.
pub proof fn lemma_add_preserves_symmetry(a: Hessian, b: Hessian, r: Hessian)
    requires
        a.sym(),
        b.sym(),
        forall|i: int, j: int| #[trigger] r.h(i, j) == fx_add(a.h(i, j), b.h(i, j)),
    ensures
        r.sym(),
{
    assert forall|i: int, j: int| #[trigger] r.h(i, j) == r.h(j, i) by {}
}

} // verus!
