//! Properties that hold of every solver run, stated over the spec models
//! that the solvers' contracts pin their results to.

use vstd::prelude::*;

use crate::differentiation;
use crate::eval::ErrModel;
use crate::eval::Evaluator;
use crate::integration;
use crate::max_finding;
use crate::num::SCALE;
use crate::ode;
use crate::ode2;
use crate::root_finding;

verus! {

/// A trajectory extension keeps what it starts from and adds one value per
/// remaining grid index.
pub proof fn lemma_traj_extends<E: Evaluator>(
    e: E,
    expr: Seq<char>,
    tf: int,
    ntv: int,
    n: nat,
    xs: Seq<int>,
    i: nat,
    ys: Seq<int>,
)
    requires
        i <= n,
        ode::traj_model(e, expr, tf, ntv, n, xs, i) == Result::<Seq<int>, ErrModel>::Ok(ys),
    ensures
        ys.len() == xs.len() + n - i,
        forall|j: int| 0 <= j < xs.len() ==> ys[j] == xs[j],
    decreases n - i,
{
    if i < n {
        match ode::step_model(e, expr, tf, ntv, xs.last(), i as int) {
            Result::Err(_) => {
                assert(false);
            },
            Result::Ok(xn) => {
                lemma_traj_extends(e, expr, tf, ntv, n, xs.push(xn), (i + 1) as nat, ys);
            },
        }
    }
}

/// A successful first-order solve returns the full grid: `nt + 1` values
/// beginning at the initial condition, for a positive step count.
pub proof fn lemma_ode_trajectory_shape<E: Evaluator>(
    e: E,
    x_str: Seq<char>,
    tf_str: Seq<char>,
    nt_str: Seq<char>,
    expr: Seq<char>,
    m: ode::Model,
)
    requires
        ode::ode_spec(e, x_str, tf_str, nt_str, expr) == Result::<ode::Model, ErrModel>::Ok(m),
    ensures
        m.nt >= 1,
        m.xs.len() == m.nt + 1,
        m.xs[0] == m.xi,
{
    let xi = e.parse_model(x_str)->Some_0;
    let tf = e.parse_model(tf_str)->Some_0;
    let ntv = e.parse_model(nt_str)->Some_0;
    let n = (ntv / (SCALE as int)) as nat;
    vstd::arithmetic::div_mod::lemma_div_by_self(SCALE as int);
    vstd::arithmetic::div_mod::lemma_div_is_ordered(SCALE as int, ntv, SCALE as int);
    vstd::arithmetic::div_mod::lemma_fundamental_div_mod(ntv, SCALE as int);
    lemma_traj_extends(e, expr, tf, ntv, n, seq![xi], 0, m.xs);
}

/// Both trajectory extensions of the second-order solver keep what they
/// start from and add one value per remaining grid index.
pub proof fn lemma_traj2_extends<E: Evaluator>(
    e: E,
    expr: Seq<char>,
    tf: int,
    ntv: int,
    n: nat,
    xs: Seq<int>,
    vs: Seq<int>,
    i: nat,
    out: (Seq<int>, Seq<int>),
)
    requires
        i <= n,
        xs.len() == vs.len(),
        ode2::traj2_model(e, expr, tf, ntv, n, xs, vs, i) == Result::<
            (Seq<int>, Seq<int>),
            ErrModel,
        >::Ok(out),
    ensures
        out.0.len() == xs.len() + n - i,
        out.1.len() == vs.len() + n - i,
        forall|j: int| 0 <= j < xs.len() ==> out.0[j] == xs[j],
        forall|j: int| 0 <= j < vs.len() ==> out.1[j] == vs[j],
    decreases n - i,
{
    if i < n {
        match ode2::step2_model(e, expr, tf, ntv, xs.last(), vs.last(), i as int) {
            Result::Err(_) => {
                assert(false);
            },
            Result::Ok(p) => {
                lemma_traj2_extends(
                    e,
                    expr,
                    tf,
                    ntv,
                    n,
                    xs.push(p.0),
                    vs.push(p.1),
                    (i + 1) as nat,
                    out,
                );
                assert forall|j: int| 0 <= j < xs.len() implies out.0[j] == xs[j] by {
                    assert(out.0[j] == xs.push(p.0)[j]);
                }
                assert forall|j: int| 0 <= j < vs.len() implies out.1[j] == vs[j] by {
                    assert(out.1[j] == vs.push(p.1)[j]);
                }
            },
        }
    }
}

/// A successful second-order solve returns both full grids: `nt + 1`
/// values each, beginning at the initial conditions, for a positive step
/// count.
pub proof fn lemma_ode2_trajectory_shape<E: Evaluator>(
    e: E,
    x_str: Seq<char>,
    v_str: Seq<char>,
    tf_str: Seq<char>,
    nt_str: Seq<char>,
    expr: Seq<char>,
    m: ode2::Model,
)
    requires
        ode2::ode2_spec(e, x_str, v_str, tf_str, nt_str, expr) == Result::<
            ode2::Model,
            ErrModel,
        >::Ok(m),
    ensures
        m.nt >= 1,
        m.xs.len() == m.nt + 1,
        m.vs.len() == m.nt + 1,
        m.xs[0] == m.xi,
        m.vs[0] == m.vi,
{
    let xi = e.parse_model(x_str)->Some_0;
    let vi = e.parse_model(v_str)->Some_0;
    let tf = e.parse_model(tf_str)->Some_0;
    let ntv = e.parse_model(nt_str)->Some_0;
    let n = (ntv / (SCALE as int)) as nat;
    vstd::arithmetic::div_mod::lemma_div_by_self(SCALE as int);
    vstd::arithmetic::div_mod::lemma_div_is_ordered(SCALE as int, ntv, SCALE as int);
    vstd::arithmetic::div_mod::lemma_fundamental_div_mod(ntv, SCALE as int);
    lemma_traj2_extends(e, expr, tf, ntv, n, seq![xi], seq![vi], 0, (m.xs, m.vs));
}

/// The expected weight (in quanta) at position `k` of a freshly refined
/// sample list: one half at the front, 2 on every inserted midpoint (odd
/// positions), 1 on every other kept sample.
pub open spec fn simpson_weight_at(k: int) -> int {
    if k == 0 {
        integration::HALF_RAW as int
    } else if k % 2 == 1 {
        2 * (SCALE as int)
    } else {
        SCALE as int
    }
}

/// A refinement sweep from index `i` preserves and extends the Simpson
/// weight layout of the list built so far.
pub proof fn lemma_refine_weights<E: Evaluator>(
    e: E,
    expr: Seq<char>,
    pts: Seq<(int, int, int)>,
    dx: int,
    i: nat,
    acc: int,
    acc_pts: Seq<(int, int, int)>,
    out: (int, Seq<(int, int, int)>),
)
    requires
        i <= pts.len(),
        acc_pts.len() == 2 * i,
        forall|k: int| 0 <= k < acc_pts.len() ==> #[trigger] acc_pts[k].2 == simpson_weight_at(k),
        integration::refine_pts(e, expr, pts, dx, i, acc, acc_pts) == Result::<
            (int, Seq<(int, int, int)>),
            ErrModel,
        >::Ok(out),
    ensures
        out.1.len() == 2 * pts.len(),
        forall|k: int| 0 <= k < out.1.len() ==> #[trigger] out.1[k].2 == simpson_weight_at(k),
    decreases pts.len() - i,
{
    if i < pts.len() {
        let pt = pts[i as int];
        match crate::num::q_mul(pt.1, pt.2) {
            Option::None => {
                assert(false);
            },
            Option::Some(w) => match crate::num::q_add(acc, w) {
                Option::None => {
                    assert(false);
                },
                Option::Some(acc2) => match crate::num::q_add(pt.0, dx) {
                    Option::None => {
                        assert(false);
                    },
                    Option::Some(x) => match e.eval1_model(expr, x) {
                        Option::None => {
                            assert(false);
                        },
                        Option::Some(f) => {
                            let w1: int = if i == 0 {
                                integration::HALF_RAW as int
                            } else {
                                SCALE as int
                            };
                            let next = acc_pts.push((pt.0, pt.1, w1)).push(
                                (x, f, 2 * (SCALE as int)),
                            );
                            assert forall|k: int|
                                0 <= k < next.len() implies (#[trigger] next[k]).2
                                == simpson_weight_at(k) by {
                                if k < acc_pts.len() {
                                    assert(next[k] == acc_pts[k]);
                                }
                            }
                            lemma_refine_weights(e, expr, pts, dx, i + 1, acc2, next, out);
                        },
                    },
                },
            },
        }
    }
}

/// A full refinement sweep doubles the sample count and lays the weights
/// out in the composite-Simpson pattern: one half at the first sample,
/// 2 on every inserted midpoint, 1 on every other kept sample (the final
/// endpoint is carried separately and keeps weight one half).
pub proof fn lemma_simpson_weight_layout<E: Evaluator>(
    e: E,
    expr: Seq<char>,
    pts: Seq<(int, int, int)>,
    dx: int,
    acc: int,
    out: (int, Seq<(int, int, int)>),
)
    requires
        integration::refine_pts(e, expr, pts, dx, 0, acc, Seq::empty()) == Result::<
            (int, Seq<(int, int, int)>),
            ErrModel,
        >::Ok(out),
    ensures
        out.1.len() == 2 * pts.len(),
        pts.len() > 0 ==> out.1[0].2 == integration::HALF_RAW as int,
        forall|k: int| 0 <= k < out.1.len() ==> #[trigger] out.1[k].2 == simpson_weight_at(k),
{
    lemma_refine_weights(e, expr, pts, dx, 0, acc, Seq::empty(), out);
}

/// The interval the root finder's bracketing phase hands on satisfies the
/// bracket invariant: the endpoint values do not share a sign.
pub proof fn lemma_root_bracket_sign_change<E: Evaluator>(
    e: E,
    expr: Seq<char>,
    step: int,
    x0: int,
    f0: int,
    x2: int,
    f2: int,
    steps: int,
    fuel: nat,
    out: (int, int, int, int, int),
)
    requires
        root_finding::bracket_loop(e, expr, step, x0, f0, x2, f2, steps, fuel) == Result::<
            (int, int, int, int, int),
            ErrModel,
        >::Ok(out),
    ensures
        out.1 * out.3 <= 0,
    decreases fuel,
{
    if f0 * f2 > 0 && fuel > 0 {
        match crate::num::q_mul(step, root_finding::GROW_RAW as int) {
            Option::None => {
                assert(false);
            },
            Option::Some(step2) => {
                if crate::num::sabs(f0) < crate::num::sabs(f2) {
                    match crate::num::q_sub(x0, step2) {
                        Option::None => {
                            assert(false);
                        },
                        Option::Some(x0n) => match e.eval1_model(expr, x0n) {
                            Option::None => {
                                assert(false);
                            },
                            Option::Some(f0n) => {
                                lemma_root_bracket_sign_change(
                                    e,
                                    expr,
                                    step2,
                                    x0n,
                                    f0n,
                                    x2,
                                    f2,
                                    steps + 1,
                                    (fuel - 1) as nat,
                                    out,
                                );
                            },
                        },
                    }
                } else {
                    match crate::num::q_add(x2, step2) {
                        Option::None => {
                            assert(false);
                        },
                        Option::Some(x2n) => match e.eval1_model(expr, x2n) {
                            Option::None => {
                                assert(false);
                            },
                            Option::Some(f2n) => {
                                lemma_root_bracket_sign_change(
                                    e,
                                    expr,
                                    step2,
                                    x0,
                                    f0,
                                    x2n,
                                    f2n,
                                    steps + 1,
                                    (fuel - 1) as nat,
                                    out,
                                );
                            },
                        },
                    }
                }
            },
        }
    }
}

/// The triple the maximum finder's bracketing phase hands on satisfies the
/// bracket invariant: the center value dominates both outer values.
pub proof fn lemma_max_bracket_dominates<E: Evaluator>(
    e: E,
    expr: Seq<char>,
    step: int,
    x0: int,
    f0: int,
    x1: int,
    f1: int,
    x2: int,
    f2: int,
    steps: int,
    fuel: nat,
    out: (int, int, int, int, int, int, int),
)
    requires
        max_finding::bracket2_loop(e, expr, step, x0, f0, x1, f1, x2, f2, steps, fuel)
            == Result::<(int, int, int, int, int, int, int), ErrModel>::Ok(out),
    ensures
        out.3 >= out.1,
        out.3 >= out.5,
    decreases fuel,
{
    if (f1 < f0 || f1 < f2) && fuel > 0 {
        match crate::num::q_mul(step, max_finding::GROW_RAW as int) {
            Option::None => {
                assert(false);
            },
            Option::Some(step2) => {
                if f2 > f0 {
                    match crate::num::q_add(x2, step2) {
                        Option::None => {
                            assert(false);
                        },
                        Option::Some(x2n) => match e.eval1_model(expr, x2n) {
                            Option::None => {
                                assert(false);
                            },
                            Option::Some(f2n) => {
                                lemma_max_bracket_dominates(
                                    e,
                                    expr,
                                    step2,
                                    x1,
                                    f1,
                                    x2,
                                    f2,
                                    x2n,
                                    f2n,
                                    steps + 1,
                                    (fuel - 1) as nat,
                                    out,
                                );
                            },
                        },
                    }
                } else {
                    match crate::num::q_sub(x0, step2) {
                        Option::None => {
                            assert(false);
                        },
                        Option::Some(x0n) => match e.eval1_model(expr, x0n) {
                            Option::None => {
                                assert(false);
                            },
                            Option::Some(f0n) => {
                                lemma_max_bracket_dominates(
                                    e,
                                    expr,
                                    step2,
                                    x0n,
                                    f0n,
                                    x0,
                                    f0,
                                    x1,
                                    f1,
                                    steps + 1,
                                    (fuel - 1) as nat,
                                    out,
                                );
                            },
                        },
                    }
                }
            },
        }
    }
}

/// When differentiation succeeds at a point where the oracle itself
/// succeeds, the reported function value is the oracle's own value there,
/// exactly: no finite-difference truncation touches it.  The `nonsingular`
/// flag reports precisely whether the oracle succeeds at the point.
pub proof fn lemma_diff_center_value<E: Evaluator>(
    e: E,
    x_str: Seq<char>,
    expr: Seq<char>,
    m: differentiation::Model,
)
    requires
        differentiation::diff_spec(e, x_str, expr) == Result::<
            differentiation::Model,
            ErrModel,
        >::Ok(m),
    ensures
        e.parse_model(x_str) == Option::Some(m.x),
        m.nonsingular <==> e.eval1_model(expr, m.x) is Some,
        m.nonsingular ==> m.derivs[0] == e.eval1_model(expr, m.x)->Some_0,
        m.derivs.len() == 4,
{
}

/// Differentiation is a function of the evaluator's model and the inputs:
/// two runs on equal arguments have equal outcomes.
pub proof fn lemma_diff_deterministic<E: Evaluator>(
    e: E,
    x_str: Seq<char>,
    expr: Seq<char>,
    r1: Result<differentiation::Model, ErrModel>,
    r2: Result<differentiation::Model, ErrModel>,
)
    requires
        r1 == differentiation::diff_spec(e, x_str, expr),
        r2 == differentiation::diff_spec(e, x_str, expr),
    ensures
        r1 == r2,
{
}

/// Integration is a function of the evaluator's model and the inputs:
/// two runs on equal arguments have equal outcomes.
pub proof fn lemma_integration_deterministic<E: Evaluator>(
    e: E,
    xi_str: Seq<char>,
    xf_str: Seq<char>,
    expr: Seq<char>,
    r1: Result<integration::Model, ErrModel>,
    r2: Result<integration::Model, ErrModel>,
)
    requires
        r1 == integration::integ_spec(e, xi_str, xf_str, expr),
        r2 == integration::integ_spec(e, xi_str, xf_str, expr),
    ensures
        r1 == r2,
{
}

/// Root finding is a function of the evaluator's model and the inputs:
/// two runs on equal arguments have equal outcomes.
pub proof fn lemma_root_deterministic<E: Evaluator>(
    e: E,
    xi_str: Seq<char>,
    expr: Seq<char>,
    r1: Result<root_finding::Model, ErrModel>,
    r2: Result<root_finding::Model, ErrModel>,
)
    requires
        r1 == root_finding::root_spec(e, xi_str, expr),
        r2 == root_finding::root_spec(e, xi_str, expr),
    ensures
        r1 == r2,
{
}

/// Maximum finding is a function of the evaluator's model and the inputs:
/// two runs on equal arguments have equal outcomes.
pub proof fn lemma_max_deterministic<E: Evaluator>(
    e: E,
    xi_str: Seq<char>,
    expr: Seq<char>,
    r1: Result<max_finding::Model, ErrModel>,
    r2: Result<max_finding::Model, ErrModel>,
)
    requires
        r1 == max_finding::max_spec(e, xi_str, expr),
        r2 == max_finding::max_spec(e, xi_str, expr),
    ensures
        r1 == r2,
{
}

/// The first-order solver is a function of the evaluator's model and the
/// inputs: two runs on equal arguments have equal outcomes.
pub proof fn lemma_ode_deterministic<E: Evaluator>(
    e: E,
    x_str: Seq<char>,
    tf_str: Seq<char>,
    nt_str: Seq<char>,
    expr: Seq<char>,
    r1: Result<ode::Model, ErrModel>,
    r2: Result<ode::Model, ErrModel>,
)
    requires
        r1 == ode::ode_spec(e, x_str, tf_str, nt_str, expr),
        r2 == ode::ode_spec(e, x_str, tf_str, nt_str, expr),
    ensures
        r1 == r2,
{
}

/// The second-order solver is a function of the evaluator's model and the
/// inputs: two runs on equal arguments have equal outcomes.
pub proof fn lemma_ode2_deterministic<E: Evaluator>(
    e: E,
    x_str: Seq<char>,
    v_str: Seq<char>,
    tf_str: Seq<char>,
    nt_str: Seq<char>,
    expr: Seq<char>,
    r1: Result<ode2::Model, ErrModel>,
    r2: Result<ode2::Model, ErrModel>,
)
    requires
        r1 == ode2::ode2_spec(e, x_str, v_str, tf_str, nt_str, expr),
        r2 == ode2::ode2_spec(e, x_str, v_str, tf_str, nt_str, expr),
    ensures
        r1 == r2,
{
}

/// A first-order solve whose step count parses to a value that is not a
/// positive whole number is rejected with a configuration error carrying
/// that value, whatever the expression.
pub proof fn lemma_ode_rejects_bad_step_count<E: Evaluator>(
    e: E,
    x_str: Seq<char>,
    tf_str: Seq<char>,
    nt_str: Seq<char>,
    expr: Seq<char>,
    xi: int,
    tf: int,
    ntv: int,
)
    requires
        e.parse_model(x_str) == Option::Some(xi),
        e.parse_model(tf_str) == Option::Some(tf),
        e.parse_model(nt_str) == Option::Some(ntv),
        ntv % (SCALE as int) != 0 || ntv <= 0,
    ensures
        ode::ode_spec(e, x_str, tf_str, nt_str, expr) == Result::<ode::Model, ErrModel>::Err(
            ErrModel::Config(ntv),
        ),
{
}

/// A second-order solve whose step count parses to a value that is not a
/// positive whole number is rejected with a configuration error carrying
/// that value, whatever the expression.
pub proof fn lemma_ode2_rejects_bad_step_count<E: Evaluator>(
    e: E,
    x_str: Seq<char>,
    v_str: Seq<char>,
    tf_str: Seq<char>,
    nt_str: Seq<char>,
    expr: Seq<char>,
    xi: int,
    vi: int,
    tf: int,
    ntv: int,
)
    requires
        e.parse_model(x_str) == Option::Some(xi),
        e.parse_model(v_str) == Option::Some(vi),
        e.parse_model(tf_str) == Option::Some(tf),
        e.parse_model(nt_str) == Option::Some(ntv),
        ntv % (SCALE as int) != 0 || ntv <= 0,
    ensures
        ode2::ode2_spec(e, x_str, v_str, tf_str, nt_str, expr) == Result::<
            ode2::Model,
            ErrModel,
        >::Err(ErrModel::Config(ntv)),
{
}

} // verus!
