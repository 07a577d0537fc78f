//! Local-maximum finding by bracketing and bisection with a parabolic
//! convergence signal.
//!
//! Phase one keeps three points spaced `0.1` apart around the start point
//! and shifts the triple geometrically (factor 1.6) toward the side with
//! the larger outer value until the center dominates both ends.  Phase two
//! bisects the wider sub-interval (the one whose outer point has the
//! smaller function value) each iteration, and in parallel computes the
//! closed-form parabolic-vertex estimate from the current triple purely as
//! a convergence signal: the search stops when two successive parabolic
//! estimates differ by at most `epsilon`, and reports that final estimate
//! with its function value.

use vstd::prelude::*;
use vstd::string::StringExecFns;

use crate::eval::CalcError;
use crate::eval::ErrModel;
use crate::eval::Evaluator;
use crate::eval::Phase;
use crate::eval::outcome_matches;
use crate::num::Fx;
use crate::num::q_add;
use crate::num::q_avg;
use crate::num::q_div;
use crate::num::q_mul;
use crate::num::q_sub;
use crate::num::sabs;
use crate::num::sdiv;

verus! {

/// Convergence tolerance `epsilon = 10^-5`, in quanta.
pub const EPS_RAW: i64 = 1_000_000_000;

/// Initial spacing `0.1` of the bracket triple, in quanta.
pub const STEP0_RAW: i64 = 10_000_000_000_000;

/// Geometric growth factor `1.6` of the bracketing phase, in quanta.
pub const GROW_RAW: i64 = 160_000_000_000_000;

/// Cap on bracketing steps.
pub const BRACKET_MAX: i32 = 30;

/// Cap on refinement steps.
pub const MAX_MAX: i32 = 50;

/// Fuel bounding refinement loop trips; every trip counts a step, so this
/// is never exhausted.
pub const REFINE_FUEL: u32 = 52;

/// Outcome of a maximum search: the start point, the located maximum and
/// its function value, both step counts and the tolerance used.
#[derive(Clone, Debug, PartialEq, Eq)]
pub struct Results {
    pub xi: Fx,
    pub x: Fx,
    pub f: Fx,
    pub bracket_steps: i32,
    pub max_steps: i32,
    pub epsilon: Fx,
}

/// Spec-level image of [`Results`].
#[verifier::ext_equal]
pub struct Model {
    pub xi: int,
    pub x: int,
    pub f: int,
    pub bracket_steps: int,
    pub max_steps: int,
    pub epsilon: int,
}

impl View for Results {
    type V = Model;

    open spec fn view(&self) -> Model {
        Model {
            xi: self.xi@,
            x: self.x@,
            f: self.f@,
            bracket_steps: self.bracket_steps as int,
            max_steps: self.max_steps as int,
            epsilon: self.epsilon@,
        }
    }
}

/// The bracketing phase: shifts the triple toward the larger outer value
/// until the center dominates; counts steps and fails after `BRACKET_MAX`.
pub open spec fn bracket2_loop<E: Evaluator>(
    e: E,
    expr: Seq<char>,
    step: int,
    x0: int,
    f0: int,
    x1: int,
    f1: int,
    x2: int,
    f2: int,
    steps: int,
    fuel: nat,
) -> Result<(int, int, int, int, int, int, int), ErrModel>
    decreases fuel,
{
    if !(f1 < f0 || f1 < f2) {
        Result::Ok((x0, f0, x1, f1, x2, f2, steps))
    } else if fuel == 0 {
        Result::Err(ErrModel::Convergence(Phase::Bracket))
    } else {
        match q_mul(step, GROW_RAW as int) {
            Option::None => Result::Err(ErrModel::Range),
            Option::Some(step2) => {
                if f2 > f0 {
                    match q_add(x2, step2) {
                        Option::None => Result::Err(ErrModel::Range),
                        Option::Some(x2n) => match e.eval1_model(expr, x2n) {
                            Option::None => Result::Err(ErrModel::Eval),
                            Option::Some(f2n) => {
                                if steps + 1 > BRACKET_MAX as int {
                                    Result::Err(ErrModel::Convergence(Phase::Bracket))
                                } else {
                                    bracket2_loop(
                                        e,
                                        expr,
                                        step2,
                                        x1,
                                        f1,
                                        x2,
                                        f2,
                                        x2n,
                                        f2n,
                                        steps + 1,
                                        (fuel - 1) as nat,
                                    )
                                }
                            },
                        },
                    }
                } else {
                    match q_sub(x0, step2) {
                        Option::None => Result::Err(ErrModel::Range),
                        Option::Some(x0n) => match e.eval1_model(expr, x0n) {
                            Option::None => Result::Err(ErrModel::Eval),
                            Option::Some(f0n) => {
                                if steps + 1 > BRACKET_MAX as int {
                                    Result::Err(ErrModel::Convergence(Phase::Bracket))
                                } else {
                                    bracket2_loop(
                                        e,
                                        expr,
                                        step2,
                                        x0n,
                                        f0n,
                                        x0,
                                        f0,
                                        x1,
                                        f1,
                                        steps + 1,
                                        (fuel - 1) as nat,
                                    )
                                }
                            },
                        },
                    }
                }
            },
        }
    }
}

/// Whether the refinement loop keeps going: two successive parabolic
/// estimates do not yet exist, or still differ by more than `epsilon`.
pub open spec fn continue2(eo: Option<int>, en: Option<int>) -> bool {
    !(eo is Some && en is Some && sabs(eo->Some_0 - en->Some_0) <= EPS_RAW as int)
}

/// The parabolic-vertex estimate from the current triple; `None` when the
/// denominator vanishes or a value leaves the representable range, in which
/// case no estimate is recorded for this round.
pub open spec fn parab_model(x0: int, f0: int, x1: int, f1: int, x2: int, f2: int) -> Option<
    int,
> {
    match q_sub(x1, x0) {
        Option::None => Option::None,
        Option::Some(a) => match q_sub(f1, f2) {
            Option::None => Option::None,
            Option::Some(b) => match q_sub(x1, x2) {
                Option::None => Option::None,
                Option::Some(c) => match q_sub(f1, f0) {
                    Option::None => Option::None,
                    Option::Some(d) => match q_mul(a, a) {
                        Option::None => Option::None,
                        Option::Some(t1) => match q_mul(t1, b) {
                            Option::None => Option::None,
                            Option::Some(t1b) => match q_mul(c, c) {
                                Option::None => Option::None,
                                Option::Some(t2) => match q_mul(t2, d) {
                                    Option::None => Option::None,
                                    Option::Some(t2b) => match q_sub(t1b, t2b) {
                                        Option::None => Option::None,
                                        Option::Some(num) => match q_mul(a, b) {
                                            Option::None => Option::None,
                                            Option::Some(u1) => match q_mul(c, d) {
                                                Option::None => Option::None,
                                                Option::Some(u2) => match q_sub(u1, u2) {
                                                    Option::None => Option::None,
                                                    Option::Some(den) => match q_div(num, den) {
                                                        Option::None => Option::None,
                                                        Option::Some(q) => q_sub(x1, sdiv(q, 2)),
                                                    },
                                                },
                                            },
                                        },
                                    },
                                },
                            },
                        },
                    },
                },
            },
        },
    }
}

/// The refinement phase: bisect toward the weaker outer point, then record
/// the parabolic estimate and compare it with the previous one.
pub open spec fn refine2_loop<E: Evaluator>(
    e: E,
    expr: Seq<char>,
    x0: int,
    f0: int,
    x1: int,
    f1: int,
    x2: int,
    f2: int,
    eo: Option<int>,
    en: Option<int>,
    ms: int,
    fuel: nat,
) -> Result<(int, int), ErrModel>
    decreases fuel,
{
    if !continue2(eo, en) {
        Result::Ok((en->Some_0, ms))
    } else if fuel == 0 {
        Result::Err(ErrModel::Convergence(Phase::Refine))
    } else if ms > MAX_MAX as int {
        Result::Err(ErrModel::Convergence(Phase::Refine))
    } else {
        let x = q_avg(
            x1,
            if f0 > f2 {
                x2
            } else {
                x0
            },
        );
        match e.eval1_model(expr, x) {
            Option::None => Result::Err(ErrModel::Eval),
            Option::Some(f) => {
                let st = if x < x1 {
                    if f < f1 {
                        (x, f, x1, f1, x2, f2)
                    } else {
                        (x0, f0, x, f, x1, f1)
                    }
                } else {
                    if f < f1 {
                        (x0, f0, x1, f1, x, f)
                    } else {
                        (x1, f1, x, f, x2, f2)
                    }
                };
                refine2_loop(
                    e,
                    expr,
                    st.0,
                    st.1,
                    st.2,
                    st.3,
                    st.4,
                    st.5,
                    en,
                    parab_model(st.0, st.1, st.2, st.3, st.4, st.5),
                    ms + 1,
                    (fuel - 1) as nat,
                )
            },
        }
    }
}

/// Full model of a maximum search.
pub open spec fn max_spec<E: Evaluator>(e: E, xi_str: Seq<char>, expr: Seq<char>) -> Result<
    Model,
    ErrModel,
> {
    match e.parse_model(xi_str) {
        Option::None => Result::Err(ErrModel::Parse),
        Option::Some(xi) => {
            let h = sdiv(STEP0_RAW as int, 2);
            match q_sub(xi, h) {
                Option::None => Result::Err(ErrModel::Range),
                Option::Some(x0) => match q_add(xi, h) {
                    Option::None => Result::Err(ErrModel::Range),
                    Option::Some(x2) => match e.eval1_model(expr, x0) {
                        Option::None => Result::Err(ErrModel::Eval),
                        Option::Some(f0) => match e.eval1_model(expr, xi) {
                            Option::None => Result::Err(ErrModel::Eval),
                            Option::Some(f1) => match e.eval1_model(expr, x2) {
                                Option::None => Result::Err(ErrModel::Eval),
                                Option::Some(f2) => match bracket2_loop(
                                    e,
                                    expr,
                                    STEP0_RAW as int,
                                    x0,
                                    f0,
                                    xi,
                                    f1,
                                    x2,
                                    f2,
                                    0,
                                    (BRACKET_MAX + 1) as nat,
                                ) {
                                    Result::Err(er) => Result::Err(er),
                                    Result::Ok(br) => match refine2_loop(
                                        e,
                                        expr,
                                        br.0,
                                        br.1,
                                        br.2,
                                        br.3,
                                        br.4,
                                        br.5,
                                        Option::None,
                                        Option::None,
                                        0,
                                        REFINE_FUEL as nat,
                                    ) {
                                        Result::Err(er) => Result::Err(er),
                                        Result::Ok(p) => match e.eval1_model(expr, p.0) {
                                            Option::None => Result::Err(ErrModel::Eval),
                                            Option::Some(f) => Result::Ok(
                                                Model {
                                                    xi: xi,
                                                    x: p.0,
                                                    f: f,
                                                    bracket_steps: br.6,
                                                    max_steps: p.1,
                                                    epsilon: EPS_RAW as int,
                                                },
                                            ),
                                        },
                                    },
                                },
                            },
                        },
                    },
                },
            }
        },
    }
}

/// The parabolic-vertex estimate, executable side.
fn parab_exec(x0: Fx, f0: Fx, x1: Fx, f1: Fx, x2: Fx, f2: Fx) -> (r: Option<Fx>)
    ensures
        crate::num::opt_matches(r, parab_model(x0@, f0@, x1@, f1@, x2@, f2@)),
{
    let a = match x1.try_sub(x0) {
        Option::None => {
            return Option::None;
        },
        Option::Some(v) => v,
    };
    let b = match f1.try_sub(f2) {
        Option::None => {
            return Option::None;
        },
        Option::Some(v) => v,
    };
    let c = match x1.try_sub(x2) {
        Option::None => {
            return Option::None;
        },
        Option::Some(v) => v,
    };
    let d = match f1.try_sub(f0) {
        Option::None => {
            return Option::None;
        },
        Option::Some(v) => v,
    };
    let t1 = match a.try_mul(a) {
        Option::None => {
            return Option::None;
        },
        Option::Some(v) => v,
    };
    let t1b = match t1.try_mul(b) {
        Option::None => {
            return Option::None;
        },
        Option::Some(v) => v,
    };
    let t2 = match c.try_mul(c) {
        Option::None => {
            return Option::None;
        },
        Option::Some(v) => v,
    };
    let t2b = match t2.try_mul(d) {
        Option::None => {
            return Option::None;
        },
        Option::Some(v) => v,
    };
    let num = match t1b.try_sub(t2b) {
        Option::None => {
            return Option::None;
        },
        Option::Some(v) => v,
    };
    let u1 = match a.try_mul(b) {
        Option::None => {
            return Option::None;
        },
        Option::Some(v) => v,
    };
    let u2 = match c.try_mul(d) {
        Option::None => {
            return Option::None;
        },
        Option::Some(v) => v,
    };
    let den = match u1.try_sub(u2) {
        Option::None => {
            return Option::None;
        },
        Option::Some(v) => v,
    };
    let q = match num.try_div(den) {
        Option::None => {
            return Option::None;
        },
        Option::Some(v) => v,
    };
    x1.try_sub(q.half())
}

/// Finds a local maximum of `f` starting from `xi`.
///
/// The outcome is exactly the value of [`max_spec`] on the evaluator's
/// model: bracketing capped at `BRACKET_MAX` shifts, refinement capped at
/// `MAX_MAX` bisections, convergence when two successive parabolic
/// estimates agree to within `epsilon`.
#[verifier::loop_isolation(false)]
#[verifier::rlimit(100)]
pub fn raw<E: Evaluator>(e: &E, xi_str: &str, input_str: &str) -> (r: Result<Results, CalcError>)
    ensures
        outcome_matches(r, max_spec(*e, xi_str@, input_str@)),
{
    let eps = Fx::of(EPS_RAW);
    let xi = match e.parse_literal(xi_str) {
        Option::None => {
            return Result::Err(CalcError::Parse);
        },
        Option::Some(v) => v,
    };
    let mut step = Fx::of(STEP0_RAW);
    let mut x1 = xi;
    let mut x0 = match x1.try_sub(step.half()) {
        Option::None => {
            return Result::Err(CalcError::Range);
        },
        Option::Some(v) => v,
    };
    let mut x2 = match x1.try_add(step.half()) {
        Option::None => {
            return Result::Err(CalcError::Range);
        },
        Option::Some(v) => v,
    };
    let mut f0 = match e.evaluate_1var(input_str, x0) {
        Option::None => {
            return Result::Err(CalcError::Eval);
        },
        Option::Some(v) => v,
    };
    let mut f1 = match e.evaluate_1var(input_str, x1) {
        Option::None => {
            return Result::Err(CalcError::Eval);
        },
        Option::Some(v) => v,
    };
    let mut f2 = match e.evaluate_1var(input_str, x2) {
        Option::None => {
            return Result::Err(CalcError::Eval);
        },
        Option::Some(v) => v,
    };
    let ghost btarget = bracket2_loop(
        *e,
        input_str@,
        STEP0_RAW as int,
        x0@,
        f0@,
        x1@,
        f1@,
        x2@,
        f2@,
        0,
        (BRACKET_MAX + 1) as nat,
    );
    let mut bracket_steps: i32 = 0;
    while f1.lt(f0) || f1.lt(f2)
        invariant
            0 <= bracket_steps <= BRACKET_MAX,
            bracket2_loop(
                *e,
                input_str@,
                step@,
                x0@,
                f0@,
                x1@,
                f1@,
                x2@,
                f2@,
                bracket_steps as int,
                (BRACKET_MAX + 1 - bracket_steps) as nat,
            ) == btarget,
        decreases BRACKET_MAX + 1 - bracket_steps,
    {
        step = match step.try_mul(Fx::of(GROW_RAW)) {
            Option::None => {
                return Result::Err(CalcError::Range);
            },
            Option::Some(v) => v,
        };
        if f0.lt(f2) {
            x0 = x1;
            f0 = f1;
            x1 = x2;
            f1 = f2;
            x2 = match x2.try_add(step) {
                Option::None => {
                    return Result::Err(CalcError::Range);
                },
                Option::Some(v) => v,
            };
            f2 = match e.evaluate_1var(input_str, x2) {
                Option::None => {
                    return Result::Err(CalcError::Eval);
                },
                Option::Some(v) => v,
            };
        } else {
            x2 = x1;
            f2 = f1;
            x1 = x0;
            f1 = f0;
            x0 = match x0.try_sub(step) {
                Option::None => {
                    return Result::Err(CalcError::Range);
                },
                Option::Some(v) => v,
            };
            f0 = match e.evaluate_1var(input_str, x0) {
                Option::None => {
                    return Result::Err(CalcError::Eval);
                },
                Option::Some(v) => v,
            };
        }
        bracket_steps = bracket_steps + 1;
        if bracket_steps > BRACKET_MAX {
            return Result::Err(CalcError::Convergence(Phase::Bracket));
        }
    }
    let ghost rtarget = refine2_loop(
        *e,
        input_str@,
        x0@,
        f0@,
        x1@,
        f1@,
        x2@,
        f2@,
        Option::None,
        Option::None,
        0,
        REFINE_FUEL as nat,
    );
    let mut est_old: Option<Fx> = Option::None;
    let mut est_new: Option<Fx> = Option::None;
    let mut max_steps: i32 = 0;
    let mut go = true;
    while go
        invariant
            0 <= max_steps <= MAX_MAX + 1,
            max_steps <= REFINE_FUEL,
            go == continue2(crate::num::opt_view(est_old), crate::num::opt_view(est_new)),
            refine2_loop(
                *e,
                input_str@,
                x0@,
                f0@,
                x1@,
                f1@,
                x2@,
                f2@,
                crate::num::opt_view(est_old),
                crate::num::opt_view(est_new),
                max_steps as int,
                (REFINE_FUEL - max_steps) as nat,
            ) == rtarget,
        decreases REFINE_FUEL - max_steps,
    {
        if max_steps > MAX_MAX {
            return Result::Err(CalcError::Convergence(Phase::Refine));
        }
        let outer = if f2.lt(f0) {
            x2
        } else {
            x0
        };
        let x = x1.avg(outer);
        let f = match e.evaluate_1var(input_str, x) {
            Option::None => {
                return Result::Err(CalcError::Eval);
            },
            Option::Some(v) => v,
        };
        if x.lt(x1) {
            if f.lt(f1) {
                x0 = x;
                f0 = f;
            } else {
                x2 = x1;
                f2 = f1;
                x1 = x;
                f1 = f;
            }
        } else {
            if f.lt(f1) {
                x2 = x;
                f2 = f;
            } else {
                x0 = x1;
                f0 = f1;
                x1 = x;
                f1 = f;
            }
        }
        est_old = est_new;
        est_new = parab_exec(x0, f0, x1, f1, x2, f2);
        max_steps = max_steps + 1;
        go = match (est_old, est_new) {
            (Option::Some(a), Option::Some(b)) => a.abs_diff_gt(b, eps),
            _ => true,
        };
    }
    let xn = match est_new {
        Option::Some(v) => v,
        Option::None => {
            proof {
                assert(false);
            }
            Fx::of(0)
        },
    };
    let f = match e.evaluate_1var(input_str, xn) {
        Option::None => {
            return Result::Err(CalcError::Eval);
        },
        Option::Some(v) => v,
    };
    let res = Results { xi, x: xn, f, bracket_steps, max_steps, epsilon: eps };
    proof {
        let m = max_spec(*e, xi_str@, input_str@);
        assert(res@ =~= m->Ok_0);
    }
    Result::Ok(res)
}


/// Title of this page.
pub const TITLE: &'static str = "MAX-FINDING";

/// Usage text of this page.
pub const USAGE: &'static str = "In the url bar after <tt>/max-finding</tt> type the following: <tt>&sol;&lt;point at which to start search for a maximum&gt;&sol;&lt;function of <i>x</i>&gt;</tt> Note that this will not necessarily find the local maximum which is <i>closest</i> to the input point.";

/// Worked example shown on this page.
pub const EXAMPLE: &'static str = "example: to find a local maximum of the function sin <i>x</i> + <i>x</i>/2 while starting the search at <i>x</i> = 1, type <tt>/1/sin(x)+xd2</tt> after the current url address. The coordinates for this result should be <tt>(2.094..., 1.913...)</tt>. If you want to find a local m<i>in</i>imum, simply multiply your function by -1.";

/// One-line account of the algorithm.
pub const ALGORITHM: &'static str = "algorithm: simple bisection with quadratic interpolation as the convergence signal";

/// Description of the json form of a response.
pub const JSON_NOTE: &'static str = "json: type '/json' in the url bar immediately after 'max-finding' for this format rather than html. A successful response has six properties: 'xi' is where the search starts, 'x' is where it ends, 'f' is the function value there, 'bracket_steps' is the number of steps required to bracket the maximum, and 'max_steps' is the subsequent number of steps required to find it to within the absolute accuracy given in the last property, 'epsilon'. An unsuccessful response has one property: 'message' (a string reporting the error).";

/// This page's full text.
pub open spec fn page_text() -> Seq<char> {
    TITLE@ + crate::SECTION_BREAK@ + crate::links_text(5) + crate::SECTION_BREAK@ + USAGE@
        + crate::SECTION_BREAK@ + EXAMPLE@ + crate::SECTION_BREAK@ + ALGORITHM@
        + crate::SECTION_BREAK@ + JSON_NOTE@
}

/// Builds this page: title, navigation, usage, example, algorithm and the
/// json note.
pub fn page() -> (r: String)
    ensures
        r@ == page_text(),
{
    let mut s = String::from_str(TITLE);
    s.append(crate::SECTION_BREAK);
    let l = crate::links(5);
    s.append(l.as_str());
    s.append(crate::SECTION_BREAK);
    s.append(USAGE);
    s.append(crate::SECTION_BREAK);
    s.append(EXAMPLE);
    s.append(crate::SECTION_BREAK);
    s.append(ALGORITHM);
    s.append(crate::SECTION_BREAK);
    s.append(JSON_NOTE);
    proof {
        assert(s@ =~= page_text());
    }
    s
}

} // verus!
