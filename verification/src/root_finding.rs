//! Root finding by bracketing and alternating bisection with
//! inverse-quadratic interpolation.
//!
//! Phase one grows an interval around the start point by a factor of 1.6 on
//! the side whose function value is smaller in magnitude, until the endpoint
//! values differ in sign.  Phase two keeps a triple `x0 < x1 < x2` and
//! alternates strict bisection of the sub-interval containing the sign
//! change with the closed-form inverse-quadratic estimate; an estimate that
//! falls outside the bracket (or that the arithmetic cannot represent) is
//! skipped, and the following iteration bisects.  The search stops when a
//! sample's magnitude or the squared bracket width drops to `epsilon`, and
//! reports whichever bracket point has the smallest magnitude.

use vstd::prelude::*;
use vstd::string::StringExecFns;

use crate::eval::CalcError;
use crate::eval::ErrModel;
use crate::eval::Evaluator;
use crate::eval::Phase;
use crate::eval::outcome_matches;
use crate::num::Fx;
use crate::num::q_add;
use crate::num::q_avg;
use crate::num::q_div;
use crate::num::q_mul;
use crate::num::q_sub;
use crate::num::sabs;

verus! {

/// Convergence tolerance `epsilon = 10^-12`, in quanta.
pub const EPS_RAW: i64 = 100;

/// Initial bracket width `0.1`, in quanta.
pub const STEP0_RAW: i64 = 10_000_000_000_000;

/// Geometric growth factor `1.6` of the bracketing phase, in quanta.
pub const GROW_RAW: i64 = 160_000_000_000_000;

/// Cap on bracketing steps.
pub const BRACKET_MAX: i32 = 30;

/// Cap on refinement steps.
pub const ROOT_MAX: i32 = 20;

/// Fuel bounding refinement loop trips; at most two trips pass between
/// increments of the step counter, so this is never exhausted.
pub const REFINE_FUEL: u32 = 64;

/// Outcome of a root search: the start point, the root, both step counts
/// and the tolerance used.
#[derive(Clone, Debug, PartialEq, Eq)]
pub struct Results {
    pub xi: Fx,
    pub x: Fx,
    pub bracket_steps: i32,
    pub root_steps: i32,
    pub epsilon: Fx,
}

/// Spec-level image of [`Results`].
#[verifier::ext_equal]
pub struct Model {
    pub xi: int,
    pub x: int,
    pub bracket_steps: int,
    pub root_steps: int,
    pub epsilon: int,
}

impl View for Results {
    type V = Model;

    open spec fn view(&self) -> Model {
        Model {
            xi: self.xi@,
            x: self.x@,
            bracket_steps: self.bracket_steps as int,
            root_steps: self.root_steps as int,
            epsilon: self.epsilon@,
        }
    }
}

/// The bracketing phase from a current interval; counts steps and fails
/// after `BRACKET_MAX` growth steps.
pub open spec fn bracket_loop<E: Evaluator>(
    e: E,
    expr: Seq<char>,
    step: int,
    x0: int,
    f0: int,
    x2: int,
    f2: int,
    steps: int,
    fuel: nat,
) -> Result<(int, int, int, int, int), ErrModel>
    decreases fuel,
{
    if !(f0 * f2 > 0) {
        Result::Ok((x0, f0, x2, f2, steps))
    } else if fuel == 0 {
        Result::Err(ErrModel::Convergence(Phase::Bracket))
    } else {
        match q_mul(step, GROW_RAW as int) {
            Option::None => Result::Err(ErrModel::Range),
            Option::Some(step2) => {
                if sabs(f0) < sabs(f2) {
                    match q_sub(x0, step2) {
                        Option::None => Result::Err(ErrModel::Range),
                        Option::Some(x0n) => match e.eval1_model(expr, x0n) {
                            Option::None => Result::Err(ErrModel::Eval),
                            Option::Some(f0n) => {
                                if steps + 1 > BRACKET_MAX as int {
                                    Result::Err(ErrModel::Convergence(Phase::Bracket))
                                } else {
                                    bracket_loop(
                                        e,
                                        expr,
                                        step2,
                                        x0n,
                                        f0n,
                                        x2,
                                        f2,
                                        steps + 1,
                                        (fuel - 1) as nat,
                                    )
                                }
                            },
                        },
                    }
                } else {
                    match q_add(x2, step2) {
                        Option::None => Result::Err(ErrModel::Range),
                        Option::Some(x2n) => match e.eval1_model(expr, x2n) {
                            Option::None => Result::Err(ErrModel::Eval),
                            Option::Some(f2n) => {
                                if steps + 1 > BRACKET_MAX as int {
                                    Result::Err(ErrModel::Convergence(Phase::Bracket))
                                } else {
                                    bracket_loop(
                                        e,
                                        expr,
                                        step2,
                                        x0,
                                        f0,
                                        x2n,
                                        f2n,
                                        steps + 1,
                                        (fuel - 1) as nat,
                                    )
                                }
                            },
                        },
                    }
                }
            },
        }
    }
}

/// Whether the refinement loop keeps going: every sample still exceeds
/// `epsilon` in magnitude and the squared bracket width exceeds
/// `epsilon` squared.
pub open spec fn continue_cond(x0: int, f0: int, x1: int, f1: int, x2: int, f2: int) -> bool {
    &&& sabs(f0) > EPS_RAW as int
    &&& sabs(f1) > EPS_RAW as int
    &&& sabs(f2) > EPS_RAW as int
    &&& (x2 - x1) * (x1 - x0) > (EPS_RAW as int) * (EPS_RAW as int)
}

/// The reported root: whichever bracket point has the smallest magnitude of
/// function value, chosen on the side of the sign change.
pub open spec fn pick_result(x0: int, f0: int, x1: int, f1: int, x2: int, f2: int) -> int {
    if !(f0 * f1 > 0) {
        if sabs(f0) < sabs(f1) {
            x0
        } else {
            x1
        }
    } else {
        if sabs(f2) < sabs(f1) {
            x2
        } else {
            x1
        }
    }
}

/// One product-quotient term of the inverse-quadratic formula.
pub open spec fn iqi_term(x: int, fa: int, fb: int, da: int, db: int) -> Option<int> {
    match q_mul(x, fa) {
        Option::None => Option::None,
        Option::Some(t) => match q_mul(t, fb) {
            Option::None => Option::None,
            Option::Some(t2) => match q_div(t2, da) {
                Option::None => Option::None,
                Option::Some(t3) => q_div(t3, db),
            },
        },
    }
}

/// The closed-form inverse-quadratic estimate through the three bracket
/// points; `None` when a denominator vanishes or a value leaves the
/// representable range, in which case the iteration is skipped.
pub open spec fn iqi_model(x0: int, f0: int, x1: int, f1: int, x2: int, f2: int) -> Option<int> {
    match q_sub(f0, f1) {
        Option::None => Option::None,
        Option::Some(d01) => match q_sub(f0, f2) {
            Option::None => Option::None,
            Option::Some(d02) => match q_sub(f1, f2) {
                Option::None => Option::None,
                Option::Some(d12) => match iqi_term(x0, f1, f2, d01, d02) {
                    Option::None => Option::None,
                    Option::Some(t1) => match iqi_term(x1, f2, f0, -d01, d12) {
                        Option::None => Option::None,
                        Option::Some(t2) => match iqi_term(x2, f0, f1, -d02, -d12) {
                            Option::None => Option::None,
                            Option::Some(t3) => match q_add(t1, t2) {
                                Option::None => Option::None,
                                Option::Some(s) => q_add(s, t3),
                            },
                        },
                    },
                },
            },
        },
    }
}

/// The tail of a refinement step: stop at an exact zero, else count the
/// step and keep refining.
pub open spec fn step_tail<E: Evaluator>(
    e: E,
    expr: Seq<char>,
    x0: int,
    f0: int,
    x1: int,
    f1: int,
    x2: int,
    f2: int,
    bisect: bool,
    rs: int,
    fuel: nat,
) -> Result<(int, int), ErrModel>
    decreases fuel, 0nat,
{
    if f1 == 0 {
        Result::Ok((pick_result(x0, f0, x1, f1, x2, f2), rs))
    } else if fuel == 0 {
        Result::Err(ErrModel::Convergence(Phase::Refine))
    } else {
        refine_loop(e, expr, x0, f0, x1, f1, x2, f2, bisect, rs + 1, (fuel - 1) as nat)
    }
}

/// The refinement phase: alternating bisection and inverse-quadratic
/// interpolation over the bracket triple.
pub open spec fn refine_loop<E: Evaluator>(
    e: E,
    expr: Seq<char>,
    x0: int,
    f0: int,
    x1: int,
    f1: int,
    x2: int,
    f2: int,
    bisect: bool,
    rs: int,
    fuel: nat,
) -> Result<(int, int), ErrModel>
    decreases fuel, 1nat,
{
    if !continue_cond(x0, f0, x1, f1, x2, f2) {
        Result::Ok((pick_result(x0, f0, x1, f1, x2, f2), rs))
    } else if fuel == 0 {
        Result::Err(ErrModel::Convergence(Phase::Refine))
    } else {
        let b2 = !bisect;
        if rs > ROOT_MAX as int {
            Result::Err(ErrModel::Convergence(Phase::Refine))
        } else if b2 {
            if f0 * f1 > 0 {
                let xc = q_avg(x1, x2);
                match e.eval1_model(expr, xc) {
                    Option::None => Result::Err(ErrModel::Eval),
                    Option::Some(fc) => {
                        if fc * f2 > 0 {
                            step_tail(e, expr, x0, f0, x1, f1, xc, fc, b2, rs, fuel)
                        } else {
                            step_tail(e, expr, x0, f0, xc, fc, x2, f2, b2, rs, fuel)
                        }
                    },
                }
            } else {
                let xc = q_avg(x1, x0);
                match e.eval1_model(expr, xc) {
                    Option::None => Result::Err(ErrModel::Eval),
                    Option::Some(fc) => {
                        if fc * f0 > 0 {
                            step_tail(e, expr, xc, fc, x1, f1, x2, f2, b2, rs, fuel)
                        } else {
                            step_tail(e, expr, x0, f0, xc, fc, x2, f2, b2, rs, fuel)
                        }
                    },
                }
            }
        } else {
            match iqi_model(x0, f0, x1, f1, x2, f2) {
                Option::None => refine_loop(
                    e,
                    expr,
                    x0,
                    f0,
                    x1,
                    f1,
                    x2,
                    f2,
                    b2,
                    rs,
                    (fuel - 1) as nat,
                ),
                Option::Some(xc) => {
                    if xc < x0 || xc > x2 {
                        refine_loop(e, expr, x0, f0, x1, f1, x2, f2, b2, rs, (fuel - 1) as nat)
                    } else {
                        match e.eval1_model(expr, xc) {
                            Option::None => Result::Err(ErrModel::Eval),
                            Option::Some(fc) => {
                                if fc * f1 > 0 {
                                    if xc < x1 {
                                        step_tail(e, expr, x0, f0, xc, fc, x1, f1, b2, rs, fuel)
                                    } else {
                                        step_tail(e, expr, x1, f1, xc, fc, x2, f2, b2, rs, fuel)
                                    }
                                } else if fc * f0 > 0 {
                                    step_tail(e, expr, xc, fc, x1, f1, x2, f2, b2, rs, fuel)
                                } else {
                                    step_tail(e, expr, x0, f0, x1, f1, xc, fc, b2, rs, fuel)
                                }
                            },
                        }
                    }
                },
            }
        }
    }
}

/// Full model of a root search.
pub open spec fn root_spec<E: Evaluator>(e: E, xi_str: Seq<char>, expr: Seq<char>) -> Result<
    Model,
    ErrModel,
> {
    match e.parse_model(xi_str) {
        Option::None => Result::Err(ErrModel::Parse),
        Option::Some(xi) => {
            let h = crate::num::sdiv(STEP0_RAW as int, 2);
            match q_sub(xi, h) {
                Option::None => Result::Err(ErrModel::Range),
                Option::Some(x0) => match q_add(xi, h) {
                    Option::None => Result::Err(ErrModel::Range),
                    Option::Some(x2) => match e.eval1_model(expr, x0) {
                        Option::None => Result::Err(ErrModel::Eval),
                        Option::Some(f0) => match e.eval1_model(expr, x2) {
                            Option::None => Result::Err(ErrModel::Eval),
                            Option::Some(f2) => match bracket_loop(
                                e,
                                expr,
                                STEP0_RAW as int,
                                x0,
                                f0,
                                x2,
                                f2,
                                0,
                                (BRACKET_MAX + 1) as nat,
                            ) {
                                Result::Err(er) => Result::Err(er),
                                Result::Ok(br) => {
                                    let x1 = q_avg(br.0, br.2);
                                    match e.eval1_model(expr, x1) {
                                        Option::None => Result::Err(ErrModel::Eval),
                                        Option::Some(f1) => match refine_loop(
                                            e,
                                            expr,
                                            br.0,
                                            br.1,
                                            x1,
                                            f1,
                                            br.2,
                                            br.3,
                                            true,
                                            0,
                                            REFINE_FUEL as nat,
                                        ) {
                                            Result::Err(er) => Result::Err(er),
                                            Result::Ok(p) => Result::Ok(
                                                Model {
                                                    xi: xi,
                                                    x: p.0,
                                                    bracket_steps: br.4,
                                                    root_steps: p.1,
                                                    epsilon: EPS_RAW as int,
                                                },
                                            ),
                                        },
                                    }
                                },
                            },
                        },
                    },
                },
            }
        },
    }
}

/// The inverse-quadratic estimate, executable side.
fn iqi_exec(x0: Fx, f0: Fx, x1: Fx, f1: Fx, x2: Fx, f2: Fx) -> (r: Option<Fx>)
    ensures
        crate::num::opt_matches(r, iqi_model(x0@, f0@, x1@, f1@, x2@, f2@)),
{
    let d01 = match f0.try_sub(f1) {
        Option::None => {
            return Option::None;
        },
        Option::Some(v) => v,
    };
    let d02 = match f0.try_sub(f2) {
        Option::None => {
            return Option::None;
        },
        Option::Some(v) => v,
    };
    let d12 = match f1.try_sub(f2) {
        Option::None => {
            return Option::None;
        },
        Option::Some(v) => v,
    };
    let t1 = match iqi_term_exec(x0, f1, f2, d01, d02) {
        Option::None => {
            return Option::None;
        },
        Option::Some(v) => v,
    };
    let t2 = match iqi_term_exec(x1, f2, f0, d01.neg(), d12) {
        Option::None => {
            return Option::None;
        },
        Option::Some(v) => v,
    };
    let t3 = match iqi_term_exec(x2, f0, f1, d02.neg(), d12.neg()) {
        Option::None => {
            return Option::None;
        },
        Option::Some(v) => v,
    };
    let s = match t1.try_add(t2) {
        Option::None => {
            return Option::None;
        },
        Option::Some(v) => v,
    };
    s.try_add(t3)
}

/// One term of the inverse-quadratic formula, executable side.
fn iqi_term_exec(x: Fx, fa: Fx, fb: Fx, da: Fx, db: Fx) -> (r: Option<Fx>)
    ensures
        crate::num::opt_matches(r, iqi_term(x@, fa@, fb@, da@, db@)),
{
    match x.try_mul(fa) {
        Option::None => Option::None,
        Option::Some(t) => match t.try_mul(fb) {
            Option::None => Option::None,
            Option::Some(t2) => match t2.try_div(da) {
                Option::None => Option::None,
                Option::Some(t3) => t3.try_div(db),
            },
        },
    }
}

/// Finds a root of `f` starting from `xi`.
///
/// The outcome is exactly the value of [`root_spec`] on the evaluator's
/// model: bracketing capped at `BRACKET_MAX` growth steps, refinement
/// capped at `ROOT_MAX` counted steps, convergence when a sample or the
/// squared bracket width reaches `epsilon`.
#[verifier::loop_isolation(false)]
#[verifier::rlimit(100)]
pub fn raw<E: Evaluator>(e: &E, xi_str: &str, input_str: &str) -> (r: Result<Results, CalcError>)
    ensures
        outcome_matches(r, root_spec(*e, xi_str@, input_str@)),
{
    let eps = Fx::of(EPS_RAW);
    let xi = match e.parse_literal(xi_str) {
        Option::None => {
            return Result::Err(CalcError::Parse);
        },
        Option::Some(v) => v,
    };
    let mut step = Fx::of(STEP0_RAW);
    let mut x0 = match xi.try_sub(step.half()) {
        Option::None => {
            return Result::Err(CalcError::Range);
        },
        Option::Some(v) => v,
    };
    let mut x2 = match xi.try_add(step.half()) {
        Option::None => {
            return Result::Err(CalcError::Range);
        },
        Option::Some(v) => v,
    };
    let mut f0 = match e.evaluate_1var(input_str, x0) {
        Option::None => {
            return Result::Err(CalcError::Eval);
        },
        Option::Some(v) => v,
    };
    let mut f2 = match e.evaluate_1var(input_str, x2) {
        Option::None => {
            return Result::Err(CalcError::Eval);
        },
        Option::Some(v) => v,
    };
    let ghost btarget = bracket_loop(
        *e,
        input_str@,
        STEP0_RAW as int,
        x0@,
        f0@,
        x2@,
        f2@,
        0,
        (BRACKET_MAX + 1) as nat,
    );
    let mut bracket_steps: i32 = 0;
    while f0.prod_pos(f2)
        invariant
            0 <= bracket_steps <= BRACKET_MAX,
            bracket_loop(
                *e,
                input_str@,
                step@,
                x0@,
                f0@,
                x2@,
                f2@,
                bracket_steps as int,
                (BRACKET_MAX + 1 - bracket_steps) as nat,
            ) == btarget,
        decreases BRACKET_MAX + 1 - bracket_steps,
    {
        step = match step.try_mul(Fx::of(GROW_RAW)) {
            Option::None => {
                return Result::Err(CalcError::Range);
            },
            Option::Some(v) => v,
        };
        if f0.abs_val().lt(f2.abs_val()) {
            x0 = match x0.try_sub(step) {
                Option::None => {
                    return Result::Err(CalcError::Range);
                },
                Option::Some(v) => v,
            };
            f0 = match e.evaluate_1var(input_str, x0) {
                Option::None => {
                    return Result::Err(CalcError::Eval);
                },
                Option::Some(v) => v,
            };
        } else {
            x2 = match x2.try_add(step) {
                Option::None => {
                    return Result::Err(CalcError::Range);
                },
                Option::Some(v) => v,
            };
            f2 = match e.evaluate_1var(input_str, x2) {
                Option::None => {
                    return Result::Err(CalcError::Eval);
                },
                Option::Some(v) => v,
            };
        }
        bracket_steps = bracket_steps + 1;
        if bracket_steps > BRACKET_MAX {
            return Result::Err(CalcError::Convergence(Phase::Bracket));
        }
    }
    let mut x1 = x0.avg(x2);
    let mut f1 = match e.evaluate_1var(input_str, x1) {
        Option::None => {
            return Result::Err(CalcError::Eval);
        },
        Option::Some(v) => v,
    };
    let ghost rtarget = refine_loop(
        *e,
        input_str@,
        x0@,
        f0@,
        x1@,
        f1@,
        x2@,
        f2@,
        true,
        0,
        REFINE_FUEL as nat,
    );
    let mut bisect = true;
    let mut root_steps: i32 = 0;
    let ghost mut iters: int = 0;
    while f0.abs_gt(eps) && f1.abs_gt(eps) && f2.abs_gt(eps) && Fx::diff_prod_gt(
        x2,
        x1,
        x0,
        eps,
        eps,
    )
        invariant
            0 <= root_steps <= ROOT_MAX + 1,
            0 <= iters <= REFINE_FUEL as int,
            continue_cond(x0@, f0@, x1@, f1@, x2@, f2@) ==> iters <= 2 * (root_steps as int) + (
            if bisect {
                0int
            } else {
                1int
            }),
            refine_loop(
                *e,
                input_str@,
                x0@,
                f0@,
                x1@,
                f1@,
                x2@,
                f2@,
                bisect,
                root_steps as int,
                (REFINE_FUEL as int - iters) as nat,
            ) == rtarget,
        decreases REFINE_FUEL as int - iters,
    {
        let ghost bold = bisect;
        let ghost gx0 = x0@;
        let ghost gf0 = f0@;
        let ghost gx1 = x1@;
        let ghost gf1 = f1@;
        let ghost gx2 = x2@;
        let ghost gf2 = f2@;
        let ghost grs = root_steps as int;
        let ghost gfuel = (REFINE_FUEL as int - iters) as nat;
        bisect = !bisect;
        if root_steps > ROOT_MAX {
            return Result::Err(CalcError::Convergence(Phase::Refine));
        }
        if bisect {
            if f0.prod_pos(f1) {
                let xc = x1.avg(x2);
                let fc = match e.evaluate_1var(input_str, xc) {
                    Option::None => {
                        return Result::Err(CalcError::Eval);
                    },
                    Option::Some(v) => v,
                };
                if fc.prod_pos(f2) {
                    f2 = fc;
                    x2 = xc;
                } else {
                    f1 = fc;
                    x1 = xc;
                }
            } else {
                let xc = x1.avg(x0);
                let fc = match e.evaluate_1var(input_str, xc) {
                    Option::None => {
                        return Result::Err(CalcError::Eval);
                    },
                    Option::Some(v) => v,
                };
                if fc.prod_pos(f0) {
                    f0 = fc;
                    x0 = xc;
                } else {
                    f1 = fc;
                    x1 = xc;
                }
            }
            if !f1.is_zero() {
                root_steps = root_steps + 1;
            }
        } else {
            let est = iqi_exec(x0, f0, x1, f1, x2, f2);
            let mut skipped = true;
            match est {
                Option::None => {},
                Option::Some(xc) => {
                    if !(xc.lt(x0) || x2.lt(xc)) {
                        let fc = match e.evaluate_1var(input_str, xc) {
                            Option::None => {
                                return Result::Err(CalcError::Eval);
                            },
                            Option::Some(v) => v,
                        };
                        if fc.prod_pos(f1) {
                            if xc.lt(x1) {
                                x2 = x1;
                                f2 = f1;
                            } else {
                                x0 = x1;
                                f0 = f1;
                            }
                            x1 = xc;
                            f1 = fc;
                        } else {
                            if fc.prod_pos(f0) {
                                x0 = xc;
                                f0 = fc;
                            } else {
                                x2 = xc;
                                f2 = fc;
                            }
                        }
                        skipped = false;
                    }
                },
            }
            if !skipped && !f1.is_zero() {
                root_steps = root_steps + 1;
            }
        }
        proof {
            iters = iters + 1;
            reveal_with_fuel(refine_loop, 3);
            reveal_with_fuel(step_tail, 2);
            assert(continue_cond(gx0, gf0, gx1, gf1, gx2, gf2));
            assert(gfuel >= 1);
            let full = refine_loop(
                *e,
                input_str@,
                gx0,
                gf0,
                gx1,
                gf1,
                gx2,
                gf2,
                bold,
                grs,
                gfuel,
            );
            let next = refine_loop(
                *e,
                input_str@,
                x0@,
                f0@,
                x1@,
                f1@,
                x2@,
                f2@,
                bisect,
                root_steps as int,
                (gfuel - 1) as nat,
            );
            if f1@ == 0 {
                assert(!continue_cond(x0@, f0@, x1@, f1@, x2@, f2@));
                assert(next == Result::<(int, int), ErrModel>::Ok(
                    (pick_result(x0@, f0@, x1@, f1@, x2@, f2@), root_steps as int),
                ));
            }
            assert(full == next);
        }
    }
    let xr = if !f0.prod_pos(f1) {
        if f0.abs_val().lt(f1.abs_val()) {
            x0
        } else {
            x1
        }
    } else {
        if f2.abs_val().lt(f1.abs_val()) {
            x2
        } else {
            x1
        }
    };
    let res = Results { xi, x: xr, bracket_steps, root_steps, epsilon: eps };
    proof {
        let m = root_spec(*e, xi_str@, input_str@);
        assert(res@ =~= m->Ok_0);
    }
    Result::Ok(res)
}


/// Title of this page.
pub const TITLE: &'static str = "ROOT-FINDING";

/// Usage text of this page.
pub const USAGE: &'static str = "In the url bar after <tt>/root-finding</tt> type the following: <tt>&sol;&lt;point at which to start search for a root&gt;&sol;&lt;function of <i>x</i>&gt;</tt> Note that this will not necessarily find the root which is <i>closest</i> to the input point.";

/// Worked example shown on this page.
pub const EXAMPLE: &'static str = "example: to find a root of the function 2<i>x</i> - 3/(<i>x</i><sup>4</sup> + 5) while starting the search at <i>x</i> = 1, type <tt>/1/2x-3d(x**4+5)</tt> after the current url address. The result for this should be <tt>0.2995...</tt>";

/// One-line account of the algorithm.
pub const ALGORITHM: &'static str = "algorithm: alternating steps of inverse quadratic interpolation and simple bisection";

/// Description of the json form of a response.
pub const JSON_NOTE: &'static str = "json: type '/json' in the url bar immediately after 'root-finding' for this format rather than html. A successful response has five properties: 'xi' is where the search starts, 'x' is the root that is found, 'bracket_steps' is the number of steps required to bracket the root, and 'root_steps' is the subsequent number of steps required to find it to within the absolute accuracy given in the last property, 'epsilon'. An unsuccessful response has one property: 'message' (a string reporting the error).";

/// This page's full text.
pub open spec fn page_text() -> Seq<char> {
    TITLE@ + crate::SECTION_BREAK@ + crate::links_text(4) + crate::SECTION_BREAK@ + USAGE@
        + crate::SECTION_BREAK@ + EXAMPLE@ + crate::SECTION_BREAK@ + ALGORITHM@
        + crate::SECTION_BREAK@ + JSON_NOTE@
}

/// Builds this page: title, navigation, usage, example, algorithm and the
/// json note.
pub fn page() -> (r: String)
    ensures
        r@ == page_text(),
{
    let mut s = String::from_str(TITLE);
    s.append(crate::SECTION_BREAK);
    let l = crate::links(4);
    s.append(l.as_str());
    s.append(crate::SECTION_BREAK);
    s.append(USAGE);
    s.append(crate::SECTION_BREAK);
    s.append(EXAMPLE);
    s.append(crate::SECTION_BREAK);
    s.append(ALGORITHM);
    s.append(crate::SECTION_BREAK);
    s.append(JSON_NOTE);
    proof {
        assert(s@ =~= page_text());
    }
    s
}

} // verus!
