//! Second-order ordinary differential equations: `d²x/dt² = a(x, v, t)`
//! integrated over a fixed grid by fourth-order Runge-Kutta on the state
//! pair `(x, v)`.
//!
//! At each stage the velocity update uses the previous stage's acceleration
//! and the position update the previous stage's velocity, the standard
//! vector scheme.  Parallel trajectories of `x` and `v` are returned.

use vstd::prelude::*;
use vstd::string::StringExecFns;

use crate::eval::CalcError;
use crate::eval::ErrModel;
use crate::eval::Evaluator;
use crate::eval::outcome_matches;
use crate::num::Fx;
use crate::num::BOUND;
use crate::num::SCALE;
use crate::num::q_add;
use crate::num::q_div;
use crate::num::q_mul;
use crate::num::sdiv;
use crate::ode::rk_combine;
use crate::ode::stage_arg;

verus! {

/// Outcome of a second-order solve: the inputs and both trajectories.
#[derive(Clone, Debug, PartialEq, Eq)]
pub struct Results {
    pub xi: Fx,
    pub vi: Fx,
    pub tf: Fx,
    pub nt: i32,
    pub xs: Vec<Fx>,
    pub vs: Vec<Fx>,
}

/// Spec-level image of [`Results`].
#[verifier::ext_equal]
pub struct Model {
    pub xi: int,
    pub vi: int,
    pub tf: int,
    pub nt: int,
    pub xs: Seq<int>,
    pub vs: Seq<int>,
}

impl View for Results {
    type V = Model;

    open spec fn view(&self) -> Model {
        Model {
            xi: self.xi@,
            vi: self.vi@,
            tf: self.tf@,
            nt: self.nt as int,
            xs: self.xs@.map_values(|f: Fx| f@),
            vs: self.vs@.map_values(|f: Fx| f@),
        }
    }
}

/// One Runge-Kutta step of the pair `(x, v)` at grid index `i`.
pub open spec fn step2_model<E: Evaluator>(
    e: E,
    expr: Seq<char>,
    tf: int,
    ntv: int,
    x: int,
    v: int,
    i: int,
) -> Result<(int, int), ErrModel> {
    match q_mul(i * (SCALE as int), tf) {
        Option::None => Result::Err(ErrModel::Range),
        Option::Some(tn) => match q_div(tn, ntv) {
            Option::None => Result::Err(ErrModel::Range),
            Option::Some(t) => match q_div(tf, ntv) {
                Option::None => Result::Err(ErrModel::Range),
                Option::Some(dt) => match e.eval3_model(expr, x, t, v) {
                    Option::None => Result::Err(ErrModel::Eval),
                    Option::Some(a1) => match stage_arg(v, a1, sdiv(dt, 2)) {
                        Option::None => Result::Err(ErrModel::Range),
                        Option::Some(v2) => match stage_arg(x, v, sdiv(dt, 2)) {
                            Option::None => Result::Err(ErrModel::Range),
                            Option::Some(x2) => match q_add(t, sdiv(dt, 2)) {
                                Option::None => Result::Err(ErrModel::Range),
                                Option::Some(th) => match e.eval3_model(expr, x2, th, v2) {
                                    Option::None => Result::Err(ErrModel::Eval),
                                    Option::Some(a2) => match stage_arg(v, a2, sdiv(dt, 2)) {
                                        Option::None => Result::Err(ErrModel::Range),
                                        Option::Some(v3) => match stage_arg(x, v2, sdiv(dt, 2)) {
                                            Option::None => Result::Err(ErrModel::Range),
                                            Option::Some(x3) => match e.eval3_model(
                                                expr,
                                                x3,
                                                th,
                                                v3,
                                            ) {
                                                Option::None => Result::Err(ErrModel::Eval),
                                                Option::Some(a3) => match stage_arg(v, a3, dt) {
                                                    Option::None => Result::Err(ErrModel::Range),
                                                    Option::Some(v4) => match stage_arg(
                                                        x,
                                                        v3,
                                                        dt,
                                                    ) {
                                                        Option::None => Result::Err(
                                                            ErrModel::Range,
                                                        ),
                                                        Option::Some(x4) => match q_add(t, dt) {
                                                            Option::None => Result::Err(
                                                                ErrModel::Range,
                                                            ),
                                                            Option::Some(te) => match e
                                                                .eval3_model(expr, x4, te, v4) {
                                                                Option::None => Result::Err(
                                                                    ErrModel::Eval,
                                                                ),
                                                                Option::Some(a4) => match (
                                                                    rk_combine(
                                                                        x,
                                                                        v,
                                                                        v2,
                                                                        v3,
                                                                        v4,
                                                                        dt,
                                                                    ),
                                                                    rk_combine(
                                                                        v,
                                                                        a1,
                                                                        a2,
                                                                        a3,
                                                                        a4,
                                                                        dt,
                                                                    ),
                                                                ) {
                                                                    (
                                                                        Option::Some(xn),
                                                                        Option::Some(vn),
                                                                    ) => Result::Ok((xn, vn)),
                                                                    _ => Result::Err(
                                                                        ErrModel::Range,
                                                                    ),
                                                                },
                                                            },
                                                        },
                                                    },
                                                },
                                            },
                                        },
                                    },
                                },
                            },
                        },
                    },
                },
            },
        },
    }
}

/// Extends both trajectories from grid index `i` up to `n`.
pub open spec fn traj2_model<E: Evaluator>(
    e: E,
    expr: Seq<char>,
    tf: int,
    ntv: int,
    n: nat,
    xs: Seq<int>,
    vs: Seq<int>,
    i: nat,
) -> Result<(Seq<int>, Seq<int>), ErrModel>
    decreases n - i,
{
    if i >= n {
        Result::Ok((xs, vs))
    } else {
        match step2_model(e, expr, tf, ntv, xs.last(), vs.last(), i as int) {
            Result::Err(er) => Result::Err(er),
            Result::Ok(p) => traj2_model(
                e,
                expr,
                tf,
                ntv,
                n,
                xs.push(p.0),
                vs.push(p.1),
                (i + 1) as nat,
            ),
        }
    }
}

/// Full model of a second-order solve.
pub open spec fn ode2_spec<E: Evaluator>(
    e: E,
    x_str: Seq<char>,
    v_str: Seq<char>,
    tf_str: Seq<char>,
    nt_str: Seq<char>,
    expr: Seq<char>,
) -> Result<Model, ErrModel> {
    match e.parse_model(x_str) {
        Option::None => Result::Err(ErrModel::Parse),
        Option::Some(xi) => match e.parse_model(v_str) {
            Option::None => Result::Err(ErrModel::Parse),
            Option::Some(vi) => match e.parse_model(tf_str) {
                Option::None => Result::Err(ErrModel::Parse),
                Option::Some(tf) => match e.parse_model(nt_str) {
                    Option::None => Result::Err(ErrModel::Parse),
                    Option::Some(ntv) => if ntv % (SCALE as int) != 0 || ntv <= 0 {
                        Result::Err(ErrModel::Config(ntv))
                    } else {
                        let n = (ntv / (SCALE as int)) as nat;
                        match traj2_model(e, expr, tf, ntv, n, seq![xi], seq![vi], 0) {
                            Result::Err(er) => Result::Err(er),
                            Result::Ok(p) => Result::Ok(
                                Model { xi: xi, vi: vi, tf: tf, nt: n as int, xs: p.0, vs: p.1 },
                            ),
                        }
                    },
                },
            },
        },
    }
}

/// One Runge-Kutta step of the pair, executable side.
fn rk4_step2<E: Evaluator>(e: &E, expr: &str, tf: Fx, ntf: Fx, x: Fx, v: Fx, i: i64) -> (r: Result<
    (Fx, Fx),
    CalcError,
>)
    requires
        0 <= i,
        i * (SCALE as int) <= BOUND as int,
    ensures
        match (r, step2_model(*e, expr@, tf@, ntf@, x@, v@, i as int)) {
            (Result::Ok(p), Result::Ok(m)) => p.0@ == m.0 && p.1@ == m.1,
            (Result::Err(er), Result::Err(m)) => er@ == m,
            _ => false,
        },
{
    proof {
        assert(i * (SCALE as int) >= 0) by (nonlinear_arith)
            requires
                0 <= i,
        ;
    }
    let isc = Fx::of(i * SCALE);
    let tn = match isc.try_mul(tf) {
        Option::None => {
            return Result::Err(CalcError::Range);
        },
        Option::Some(w) => w,
    };
    let t = match tn.try_div(ntf) {
        Option::None => {
            return Result::Err(CalcError::Range);
        },
        Option::Some(w) => w,
    };
    let dt = match tf.try_div(ntf) {
        Option::None => {
            return Result::Err(CalcError::Range);
        },
        Option::Some(w) => w,
    };
    let hdt = dt.half();
    let a1 = match e.evaluate_3var(expr, x, t, v) {
        Option::None => {
            return Result::Err(CalcError::Eval);
        },
        Option::Some(w) => w,
    };
    let v2 = match crate::ode::stage_arg_exec(v, a1, hdt) {
        Option::None => {
            return Result::Err(CalcError::Range);
        },
        Option::Some(w) => w,
    };
    let x2 = match crate::ode::stage_arg_exec(x, v, hdt) {
        Option::None => {
            return Result::Err(CalcError::Range);
        },
        Option::Some(w) => w,
    };
    let th = match t.try_add(hdt) {
        Option::None => {
            return Result::Err(CalcError::Range);
        },
        Option::Some(w) => w,
    };
    let a2 = match e.evaluate_3var(expr, x2, th, v2) {
        Option::None => {
            return Result::Err(CalcError::Eval);
        },
        Option::Some(w) => w,
    };
    let v3 = match crate::ode::stage_arg_exec(v, a2, hdt) {
        Option::None => {
            return Result::Err(CalcError::Range);
        },
        Option::Some(w) => w,
    };
    let x3 = match crate::ode::stage_arg_exec(x, v2, hdt) {
        Option::None => {
            return Result::Err(CalcError::Range);
        },
        Option::Some(w) => w,
    };
    let a3 = match e.evaluate_3var(expr, x3, th, v3) {
        Option::None => {
            return Result::Err(CalcError::Eval);
        },
        Option::Some(w) => w,
    };
    let v4 = match crate::ode::stage_arg_exec(v, a3, dt) {
        Option::None => {
            return Result::Err(CalcError::Range);
        },
        Option::Some(w) => w,
    };
    let x4 = match crate::ode::stage_arg_exec(x, v3, dt) {
        Option::None => {
            return Result::Err(CalcError::Range);
        },
        Option::Some(w) => w,
    };
    let te = match t.try_add(dt) {
        Option::None => {
            return Result::Err(CalcError::Range);
        },
        Option::Some(w) => w,
    };
    let a4 = match e.evaluate_3var(expr, x4, te, v4) {
        Option::None => {
            return Result::Err(CalcError::Eval);
        },
        Option::Some(w) => w,
    };
    let xn = match crate::ode::rk_combine_exec(x, v, v2, v3, v4, dt) {
        Option::None => {
            return Result::Err(CalcError::Range);
        },
        Option::Some(w) => w,
    };
    let vn = match crate::ode::rk_combine_exec(v, a1, a2, a3, a4, dt) {
        Option::None => {
            return Result::Err(CalcError::Range);
        },
        Option::Some(w) => w,
    };
    Result::Ok((xn, vn))
}

/// Integrates `d²x/dt² = a(x, v, t)` from `x(0) = xi`, `v(0) = vi` to
/// `t = tf` in `nt` steps.
///
/// The outcome is exactly the value of [`ode2_spec`] on the evaluator's
/// model; a step count that is not a positive whole number is rejected with
/// a configuration error, and on success both trajectories hold `nt + 1`
/// values starting from the initial conditions.
#[verifier::loop_isolation(false)]
pub fn raw<E: Evaluator>(
    e: &E,
    x_str: &str,
    v_str: &str,
    tf_str: &str,
    nt_str: &str,
    input_str: &str,
) -> (r: Result<Results, CalcError>)
    ensures
        outcome_matches(r, ode2_spec(*e, x_str@, v_str@, tf_str@, nt_str@, input_str@)),
{
    let xi = match e.parse_literal(x_str) {
        Option::None => {
            return Result::Err(CalcError::Parse);
        },
        Option::Some(w) => w,
    };
    let vi = match e.parse_literal(v_str) {
        Option::None => {
            return Result::Err(CalcError::Parse);
        },
        Option::Some(w) => w,
    };
    let tf = match e.parse_literal(tf_str) {
        Option::None => {
            return Result::Err(CalcError::Parse);
        },
        Option::Some(w) => w,
    };
    let ntf = match e.parse_literal(nt_str) {
        Option::None => {
            return Result::Err(CalcError::Parse);
        },
        Option::Some(w) => w,
    };
    let n: i64 = match ntf.int_value() {
        Option::None => {
            return Result::Err(CalcError::Config(ntf));
        },
        Option::Some(k) => k,
    };
    if n <= 0 {
        proof {
            assert(ntf@ <= 0) by (nonlinear_arith)
                requires
                    ntf@ == n as int * (SCALE as int),
                    n <= 0,
            ;
        }
        return Result::Err(CalcError::Config(ntf));
    }
    let ghost ntv = ntf@;
    let ghost nn = (ntv / (SCALE as int)) as nat;
    proof {
        use_type_invariant(&ntf);
        assert(ntv > 0) by (nonlinear_arith)
            requires
                ntv == n as int * (SCALE as int),
                n >= 1,
        ;
        vstd::arithmetic::div_mod::lemma_mod_multiples_basic(n as int, SCALE as int);
        vstd::arithmetic::div_mod::lemma_fundamental_div_mod(ntv, SCALE as int);
        assert(n as int == ntv / (SCALE as int)) by (nonlinear_arith)
            requires
                ntv == n as int * (SCALE as int),
                ntv / (SCALE as int) * (SCALE as int) + ntv % (SCALE as int) == ntv,
                ntv % (SCALE as int) == 0,
        ;
    }
    let mut xs: Vec<Fx> = Vec::new();
    let mut vs: Vec<Fx> = Vec::new();
    xs.push(xi);
    vs.push(vi);
    proof {
        assert(xs@.map_values(|f: Fx| f@) =~= seq![xi@]);
        assert(vs@.map_values(|f: Fx| f@) =~= seq![vi@]);
    }
    let mut i: i64 = 0;
    while i < n
        invariant
            0 <= i <= n,
            xs@.len() == i + 1,
            vs@.len() == i + 1,
            traj2_model(
                *e,
                input_str@,
                tf@,
                ntv,
                nn,
                xs@.map_values(|f: Fx| f@),
                vs@.map_values(|f: Fx| f@),
                i as nat,
            ) == traj2_model(*e, input_str@, tf@, ntv, nn, seq![xi@], seq![vi@], 0),
        decreases n - i,
    {
        proof {
            assert(i * (SCALE as int) <= n as int * (SCALE as int)) by (nonlinear_arith)
                requires
                    i <= n,
                    SCALE as int > 0,
            ;
            assert(xs@.map_values(|f: Fx| f@).last() == xs@.last()@);
            assert(vs@.map_values(|f: Fx| f@).last() == vs@.last()@);
        }
        let x = xs[xs.len() - 1];
        let v = vs[vs.len() - 1];
        let ghost prex = xs@.map_values(|f: Fx| f@);
        let ghost prev = vs@.map_values(|f: Fx| f@);
        let p = match rk4_step2(e, input_str, tf, ntf, x, v, i) {
            Result::Err(er) => {
                return Result::Err(er);
            },
            Result::Ok(w) => w,
        };
        xs.push(p.0);
        vs.push(p.1);
        i = i + 1;
        proof {
            assert(xs@.map_values(|f: Fx| f@) =~= prex.push(p.0@));
            assert(vs@.map_values(|f: Fx| f@) =~= prev.push(p.1@));
        }
    }
    let res = Results { xi, vi, tf, nt: n as i32, xs, vs };
    proof {
        let m = ode2_spec(*e, x_str@, v_str@, tf_str@, nt_str@, input_str@);
        assert(res@ =~= m->Ok_0);
    }
    Result::Ok(res)
}


/// Title of this page.
pub const TITLE: &'static str = "2ND-ORDER DIFFERENTIAL EQUATIONS";

/// Usage text of this page.
pub const USAGE: &'static str = "This page solves a differential equation of the form <i>d</i><sup>2</sup><i>x/dt</i><sup>2</sup> = function of <i>x</i>, of <i>dx/dt</i> (= '<i>v</i>'), and of time <i>t</i>, with specified initial conditions: values of <i>x</i> and of <i>v</i> when the time <i>t</i> = 0. In the url bar after <tt>/ode2</tt> type the following: <tt>&sol;&lt;initial value of <i>x</i>&gt;&sol;&lt;initial value of <i>v</i>&gt;&sol;&lt;final value of <i>t</i>&gt;&sol;&lt;number of time-steps&gt;&sol;&lt;function of <i>x</i>, <i>v</i>, and <i>t</i>&gt;</tt>";

/// Worked example shown on this page.
pub const EXAMPLE: &'static str = "example: to solve the equation d<sup>2</sup>x/dt<sup>2</sup> = -2x - v + 3t with the initial conditions that x(0) = 0 and dx/dt = v(0) = 1 over the range 0 < t < 4 using 10 time-steps, type <tt>/0/1/4/10/-2x-v+3t</tt> after /ode2 in the url above. In this case the final values for x and dx/dt should be 5.31... and 1.57..., respectively.";

/// One-line account of the algorithm.
pub const ALGORITHM: &'static str = "algorithm: 4th-order Runge-Kutta method";

/// Description of the json form of a response.
pub const JSON_NOTE: &'static str = "json: type '/json' in the url bar immediately after 'ode2' for this format rather than html. All data are returned.";

/// This page's full text.
pub open spec fn page_text() -> Seq<char> {
    TITLE@ + crate::SECTION_BREAK@ + crate::links_text(7) + crate::SECTION_BREAK@ + USAGE@
        + crate::SECTION_BREAK@ + EXAMPLE@ + crate::SECTION_BREAK@ + ALGORITHM@
        + crate::SECTION_BREAK@ + JSON_NOTE@
}

/// Builds this page: title, navigation, usage, example, algorithm and the
/// json note.
pub fn page() -> (r: String)
    ensures
        r@ == page_text(),
{
    let mut s = String::from_str(TITLE);
    s.append(crate::SECTION_BREAK);
    let l = crate::links(7);
    s.append(l.as_str());
    s.append(crate::SECTION_BREAK);
    s.append(USAGE);
    s.append(crate::SECTION_BREAK);
    s.append(EXAMPLE);
    s.append(crate::SECTION_BREAK);
    s.append(ALGORITHM);
    s.append(crate::SECTION_BREAK);
    s.append(JSON_NOTE);
    proof {
        assert(s@ =~= page_text());
    }
    s
}

} // verus!
