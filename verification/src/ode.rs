//! First-order ordinary differential equations: `dx/dt = f(x, t)` integrated
//! over a fixed grid by the classical fourth-order Runge-Kutta method.
//!
//! The grid has `nt` equal steps from `t = 0` to `t = tf`; each step samples
//! the oracle four times and advances `x` by the 1:2:2:1 weighted mean of the
//! stage derivatives.  The whole trajectory of `nt + 1` values is returned.

use vstd::prelude::*;
use vstd::string::StringExecFns;

use crate::eval::CalcError;
use crate::eval::ErrModel;
use crate::eval::Evaluator;
use crate::eval::outcome_matches;
use crate::num::Fx;
use crate::num::BOUND;
use crate::num::SCALE;
use crate::num::q_add;
use crate::num::q_div;
use crate::num::q_mul;
use crate::num::sdiv;

verus! {

/// Outcome of a first-order solve: the inputs and the full trajectory.
#[derive(Clone, Debug, PartialEq, Eq)]
pub struct Results {
    pub xi: Fx,
    pub tf: Fx,
    pub nt: i32,
    pub xs: Vec<Fx>,
}

/// Spec-level image of [`Results`].
#[verifier::ext_equal]
pub struct Model {
    pub xi: int,
    pub tf: int,
    pub nt: int,
    pub xs: Seq<int>,
}

impl View for Results {
    type V = Model;

    open spec fn view(&self) -> Model {
        Model {
            xi: self.xi@,
            tf: self.tf@,
            nt: self.nt as int,
            xs: self.xs@.map_values(|f: Fx| f@),
        }
    }
}

/// One Runge-Kutta step from `x` at grid index `i`.
pub open spec fn step_model<E: Evaluator>(
    e: E,
    expr: Seq<char>,
    tf: int,
    ntv: int,
    x: int,
    i: int,
) -> Result<int, ErrModel> {
    match q_mul(i * (SCALE as int), tf) {
        Option::None => Result::Err(ErrModel::Range),
        Option::Some(tn) => match q_div(tn, ntv) {
            Option::None => Result::Err(ErrModel::Range),
            Option::Some(t) => match q_div(tf, ntv) {
                Option::None => Result::Err(ErrModel::Range),
                Option::Some(dt) => match e.eval2_model(expr, x, t) {
                    Option::None => Result::Err(ErrModel::Eval),
                    Option::Some(v1) => match stage_arg(x, v1, sdiv(dt, 2)) {
                        Option::None => Result::Err(ErrModel::Range),
                        Option::Some(x2) => match q_add(t, sdiv(dt, 2)) {
                            Option::None => Result::Err(ErrModel::Range),
                            Option::Some(th) => match e.eval2_model(expr, x2, th) {
                                Option::None => Result::Err(ErrModel::Eval),
                                Option::Some(v2) => match stage_arg(x, v2, sdiv(dt, 2)) {
                                    Option::None => Result::Err(ErrModel::Range),
                                    Option::Some(x3) => match e.eval2_model(expr, x3, th) {
                                        Option::None => Result::Err(ErrModel::Eval),
                                        Option::Some(v3) => match stage_arg(x, v3, dt) {
                                            Option::None => Result::Err(ErrModel::Range),
                                            Option::Some(x4) => match q_add(t, dt) {
                                                Option::None => Result::Err(ErrModel::Range),
                                                Option::Some(te) => match e.eval2_model(
                                                    expr,
                                                    x4,
                                                    te,
                                                ) {
                                                    Option::None => Result::Err(ErrModel::Eval),
                                                    Option::Some(v4) => match rk_combine(
                                                        x,
                                                        v1,
                                                        v2,
                                                        v3,
                                                        v4,
                                                        dt,
                                                    ) {
                                                        Option::None => Result::Err(
                                                            ErrModel::Range,
                                                        ),
                                                        Option::Some(xn) => Result::Ok(xn),
                                                    },
                                                },
                                            },
                                        },
                                    },
                                },
                            },
                        },
                    },
                },
            },
        },
    }
}

/// `x + v * h`: the abscissa handed to an inner stage.
pub open spec fn stage_arg(x: int, v: int, h: int) -> Option<int> {
    match q_mul(v, h) {
        Option::None => Option::None,
        Option::Some(p) => q_add(x, p),
    }
}

/// `x + ((v1 + v4) + 2 (v2 + v3)) * dt / 6`.
pub open spec fn rk_combine(x: int, v1: int, v2: int, v3: int, v4: int, dt: int) -> Option<int> {
    match q_add(v1, v4) {
        Option::None => Option::None,
        Option::Some(s1) => match q_add(v2, v3) {
            Option::None => Option::None,
            Option::Some(s2) => match q_add(s2, s2) {
                Option::None => Option::None,
                Option::Some(s3) => match q_add(s1, s3) {
                    Option::None => Option::None,
                    Option::Some(s4) => match q_mul(s4, dt) {
                        Option::None => Option::None,
                        Option::Some(s5) => match q_div(s5, 6 * (SCALE as int)) {
                            Option::None => Option::None,
                            Option::Some(s6) => q_add(x, s6),
                        },
                    },
                },
            },
        },
    }
}

/// Extends a trajectory from grid index `i` up to `n`.
pub open spec fn traj_model<E: Evaluator>(
    e: E,
    expr: Seq<char>,
    tf: int,
    ntv: int,
    n: nat,
    xs: Seq<int>,
    i: nat,
) -> Result<Seq<int>, ErrModel>
    decreases n - i,
{
    if i >= n {
        Result::Ok(xs)
    } else {
        match step_model(e, expr, tf, ntv, xs.last(), i as int) {
            Result::Err(er) => Result::Err(er),
            Result::Ok(xn) => traj_model(e, expr, tf, ntv, n, xs.push(xn), (i + 1) as nat),
        }
    }
}

/// Full model of a first-order solve.
pub open spec fn ode_spec<E: Evaluator>(
    e: E,
    x_str: Seq<char>,
    tf_str: Seq<char>,
    nt_str: Seq<char>,
    expr: Seq<char>,
) -> Result<Model, ErrModel> {
    match e.parse_model(x_str) {
        Option::None => Result::Err(ErrModel::Parse),
        Option::Some(xi) => match e.parse_model(tf_str) {
            Option::None => Result::Err(ErrModel::Parse),
            Option::Some(tf) => match e.parse_model(nt_str) {
                Option::None => Result::Err(ErrModel::Parse),
                Option::Some(ntv) => if ntv % (SCALE as int) != 0 || ntv <= 0 {
                    Result::Err(ErrModel::Config(ntv))
                } else {
                    let n = (ntv / (SCALE as int)) as nat;
                    match traj_model(e, expr, tf, ntv, n, seq![xi], 0) {
                        Result::Err(er) => Result::Err(er),
                        Result::Ok(xs) => Result::Ok(
                            Model { xi: xi, tf: tf, nt: n as int, xs: xs },
                        ),
                    }
                },
            },
        },
    }
}

/// One Runge-Kutta step, executable side.
fn rk4_step<E: Evaluator>(e: &E, expr: &str, tf: Fx, ntf: Fx, x: Fx, i: i64) -> (r: Result<
    Fx,
    CalcError,
>)
    requires
        0 <= i,
        i * (SCALE as int) <= BOUND as int,
    ensures
        match (r, step_model(*e, expr@, tf@, ntf@, x@, i as int)) {
            (Result::Ok(f), Result::Ok(m)) => f@ == m,
            (Result::Err(er), Result::Err(m)) => er@ == m,
            _ => false,
        },
{
    proof {
        assert(i * (SCALE as int) >= 0) by (nonlinear_arith)
            requires
                0 <= i,
        ;
    }
    let isc = Fx::of(i * SCALE);
    let tn = match isc.try_mul(tf) {
        Option::None => {
            return Result::Err(CalcError::Range);
        },
        Option::Some(v) => v,
    };
    let t = match tn.try_div(ntf) {
        Option::None => {
            return Result::Err(CalcError::Range);
        },
        Option::Some(v) => v,
    };
    let dt = match tf.try_div(ntf) {
        Option::None => {
            return Result::Err(CalcError::Range);
        },
        Option::Some(v) => v,
    };
    let hdt = dt.half();
    let v1 = match e.evaluate_2var(expr, x, t) {
        Option::None => {
            return Result::Err(CalcError::Eval);
        },
        Option::Some(v) => v,
    };
    let x2 = match stage_arg_exec(x, v1, hdt) {
        Option::None => {
            return Result::Err(CalcError::Range);
        },
        Option::Some(v) => v,
    };
    let th = match t.try_add(hdt) {
        Option::None => {
            return Result::Err(CalcError::Range);
        },
        Option::Some(v) => v,
    };
    let v2 = match e.evaluate_2var(expr, x2, th) {
        Option::None => {
            return Result::Err(CalcError::Eval);
        },
        Option::Some(v) => v,
    };
    let x3 = match stage_arg_exec(x, v2, hdt) {
        Option::None => {
            return Result::Err(CalcError::Range);
        },
        Option::Some(v) => v,
    };
    let v3 = match e.evaluate_2var(expr, x3, th) {
        Option::None => {
            return Result::Err(CalcError::Eval);
        },
        Option::Some(v) => v,
    };
    let x4 = match stage_arg_exec(x, v3, dt) {
        Option::None => {
            return Result::Err(CalcError::Range);
        },
        Option::Some(v) => v,
    };
    let te = match t.try_add(dt) {
        Option::None => {
            return Result::Err(CalcError::Range);
        },
        Option::Some(v) => v,
    };
    let v4 = match e.evaluate_2var(expr, x4, te) {
        Option::None => {
            return Result::Err(CalcError::Eval);
        },
        Option::Some(v) => v,
    };
    match rk_combine_exec(x, v1, v2, v3, v4, dt) {
        Option::None => Result::Err(CalcError::Range),
        Option::Some(xn) => Result::Ok(xn),
    }
}

/// `x + v * h`, executable side.
pub(crate) fn stage_arg_exec(x: Fx, v: Fx, h: Fx) -> (r: Option<Fx>)
    ensures
        crate::num::opt_matches(r, stage_arg(x@, v@, h@)),
{
    match v.try_mul(h) {
        Option::None => Option::None,
        Option::Some(p) => x.try_add(p),
    }
}

/// The 1:2:2:1 stage combination, executable side.
pub(crate) fn rk_combine_exec(x: Fx, v1: Fx, v2: Fx, v3: Fx, v4: Fx, dt: Fx) -> (r: Option<Fx>)
    ensures
        crate::num::opt_matches(r, rk_combine(x@, v1@, v2@, v3@, v4@, dt@)),
{
    match v1.try_add(v4) {
        Option::None => Option::None,
        Option::Some(s1) => match v2.try_add(v3) {
            Option::None => Option::None,
            Option::Some(s2) => match s2.try_add(s2) {
                Option::None => Option::None,
                Option::Some(s3) => match s1.try_add(s3) {
                    Option::None => Option::None,
                    Option::Some(s4) => match s4.try_mul(dt) {
                        Option::None => Option::None,
                        Option::Some(s5) => match s5.try_div(Fx::of(6 * SCALE)) {
                            Option::None => Option::None,
                            Option::Some(s6) => x.try_add(s6),
                        },
                    },
                },
            },
        },
    }
}

/// Integrates `dx/dt = f(x, t)` from `x(0) = xi` to `t = tf` in `nt` steps.
///
/// The outcome is exactly the value of [`ode_spec`] on the evaluator's
/// model; in particular a step count that is not a positive whole number is
/// rejected with a configuration error, and on success the trajectory holds
/// `nt + 1` values starting from `xi`.
#[verifier::loop_isolation(false)]
pub fn raw<E: Evaluator>(e: &E, x_str: &str, tf_str: &str, nt_str: &str, input_str: &str) -> (r:
    Result<Results, CalcError>)
    ensures
        outcome_matches(r, ode_spec(*e, x_str@, tf_str@, nt_str@, input_str@)),
{
    let xi = match e.parse_literal(x_str) {
        Option::None => {
            return Result::Err(CalcError::Parse);
        },
        Option::Some(v) => v,
    };
    let tf = match e.parse_literal(tf_str) {
        Option::None => {
            return Result::Err(CalcError::Parse);
        },
        Option::Some(v) => v,
    };
    let ntf = match e.parse_literal(nt_str) {
        Option::None => {
            return Result::Err(CalcError::Parse);
        },
        Option::Some(v) => v,
    };
    let n: i64 = match ntf.int_value() {
        Option::None => {
            return Result::Err(CalcError::Config(ntf));
        },
        Option::Some(k) => k,
    };
    if n <= 0 {
        proof {
            assert(ntf@ <= 0) by (nonlinear_arith)
                requires
                    ntf@ == n as int * (SCALE as int),
                    n <= 0,
            ;
        }
        return Result::Err(CalcError::Config(ntf));
    }
    let ghost ntv = ntf@;
    let ghost nn = (ntv / (SCALE as int)) as nat;
    proof {
        use_type_invariant(&ntf);
        assert(ntv > 0) by (nonlinear_arith)
            requires
                ntv == n as int * (SCALE as int),
                n >= 1,
        ;
        vstd::arithmetic::div_mod::lemma_mod_multiples_basic(n as int, SCALE as int);
        vstd::arithmetic::div_mod::lemma_fundamental_div_mod(ntv, SCALE as int);
        assert(n as int == ntv / (SCALE as int)) by (nonlinear_arith)
            requires
                ntv == n as int * (SCALE as int),
                ntv / (SCALE as int) * (SCALE as int) + ntv % (SCALE as int) == ntv,
                ntv % (SCALE as int) == 0,
        ;
    }
    let mut xs: Vec<Fx> = Vec::new();
    xs.push(xi);
    proof {
        assert(xs@.map_values(|f: Fx| f@) =~= seq![xi@]);
    }
    let mut i: i64 = 0;
    while i < n
        invariant
            0 <= i <= n,
            n as int == nn,
            ntv == ntf@,
            nn == ntv / (SCALE as int),
            n as int * (SCALE as int) == ntv,
            ntv <= BOUND as int,
            xs@.len() == i + 1,
            traj_model(*e, input_str@, tf@, ntv, nn, xs@.map_values(|f: Fx| f@), i as nat)
                == traj_model(*e, input_str@, tf@, ntv, nn, seq![xi@], 0),
        decreases n - i,
    {
        proof {
            assert(i * (SCALE as int) <= n as int * (SCALE as int)) by (nonlinear_arith)
                requires
                    i <= n,
                    SCALE as int > 0,
            ;
            assert(xs@.map_values(|f: Fx| f@).last() == xs@.last()@);
        }
        let x = xs[xs.len() - 1];
        let ghost pre = xs@.map_values(|f: Fx| f@);
        let xn = match rk4_step(e, input_str, tf, ntf, x, i) {
            Result::Err(er) => {
                return Result::Err(er);
            },
            Result::Ok(v) => v,
        };
        xs.push(xn);
        i = i + 1;
        proof {
            assert(xs@.map_values(|f: Fx| f@) =~= pre.push(xn@));
        }
    }
    let res = Results { xi, tf, nt: n as i32, xs };
    proof {
        let m = ode_spec(*e, x_str@, tf_str@, nt_str@, input_str@);
        assert(res@ =~= m->Ok_0);
    }
    Result::Ok(res)
}


/// Title of this page.
pub const TITLE: &'static str = "1ST-ORDER DIFFERENTIAL EQUATIONS";

/// Usage text of this page.
pub const USAGE: &'static str = "This page solves a differential equation of the form <i>dx/dt</i> = function of <i>x</i> and <i>t</i>, with a specified initial condition: a value of <i>x</i> when the time <i>t</i> = 0. In the url bar after <tt>/ode</tt> type the following: <tt>&sol;&lt;initial value of <i>x</i>&gt;&sol;&lt;final value of <i>t</i>&gt;&sol;&lt;number of time-steps&gt;&sol;&lt;function of <i>x</i> and <i>t</i>&gt;</tt>";

/// Worked example shown on this page.
pub const EXAMPLE: &'static str = "example: to solve the equation dx/dt = 2x - t - 2 from t = 0 to t = 2 using 10 time steps and the initial condition that x(0) = 1, type <tt>/1/2/10/2x-t-2</tt> after /ode in the url above. The result should be that x(2) = -11.39...";

/// One-line account of the algorithm.
pub const ALGORITHM: &'static str = "algorithm: 4th-order Runge-Kutta method";

/// Description of the json form of a response.
pub const JSON_NOTE: &'static str = "json: type '/json' in the url bar immediately after 'ode' for this format rather than html. All of the data are returned.";

/// This page's full text.
pub open spec fn page_text() -> Seq<char> {
    TITLE@ + crate::SECTION_BREAK@ + crate::links_text(6) + crate::SECTION_BREAK@ + USAGE@
        + crate::SECTION_BREAK@ + EXAMPLE@ + crate::SECTION_BREAK@ + ALGORITHM@
        + crate::SECTION_BREAK@ + JSON_NOTE@
}

/// Builds this page: title, navigation, usage, example, algorithm and the
/// json note.
pub fn page() -> (r: String)
    ensures
        r@ == page_text(),
{
    let mut s = String::from_str(TITLE);
    s.append(crate::SECTION_BREAK);
    let l = crate::links(6);
    s.append(l.as_str());
    s.append(crate::SECTION_BREAK);
    s.append(USAGE);
    s.append(crate::SECTION_BREAK);
    s.append(EXAMPLE);
    s.append(crate::SECTION_BREAK);
    s.append(ALGORITHM);
    s.append(crate::SECTION_BREAK);
    s.append(JSON_NOTE);
    proof {
        assert(s@ =~= page_text());
    }
    s
}

} // verus!
