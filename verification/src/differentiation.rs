//! Finite-difference differentiation with removable-singularity handling.
//!
//! The function and its first three derivatives at a point are estimated
//! from four off-center samples at `x + {2, 1, -1, -2} * dx` together with an
//! attempted evaluation at `x` itself.  When the center evaluation fails the
//! point is treated as a removable singularity: the reported function value
//! is the mean of the two nearest samples and the second derivative uses a
//! four-point formula that never references the center.

use vstd::prelude::*;
use vstd::string::StringExecFns;

use crate::eval::CalcError;
use crate::eval::ErrModel;
use crate::eval::Evaluator;
use crate::eval::outcome_matches;
use crate::num::Fx;
use crate::num::SCALE;
use crate::num::q_add;
use crate::num::q_div;
use crate::num::q_avg;
use crate::num::q_sub;
use crate::num::sdiv;

verus! {

/// The finite-difference step `dx = 0.001`, in quanta.
pub const DX_RAW: i64 = 100_000_000_000;

/// Outcome of a differentiation request: the point, whether the function
/// exists there, and `[f, f', f'', f''']`.
#[derive(Clone, Debug, PartialEq, Eq)]
pub struct Results {
    pub x: Fx,
    pub nonsingular: bool,
    pub derivs: Vec<Fx>,
}

/// Spec-level image of [`Results`].
#[verifier::ext_equal]
pub struct Model {
    pub x: int,
    pub nonsingular: bool,
    pub derivs: Seq<int>,
}

impl View for Results {
    type V = Model;

    open spec fn view(&self) -> Model {
        Model {
            x: self.x@,
            nonsingular: self.nonsingular,
            derivs: self.derivs@.map_values(|f: Fx| f@),
        }
    }
}

/// One off-center sample: the offset applied to `x`, then the oracle.
pub open spec fn sample_model<E: Evaluator>(e: E, expr: Seq<char>, x: int, c: int) -> Result<
    int,
    ErrModel,
> {
    match q_add(x, c) {
        Option::None => Result::Err(ErrModel::Range),
        Option::Some(xk) => match e.eval1_model(expr, xk) {
            Option::None => Result::Err(ErrModel::Eval),
            Option::Some(f) => Result::Ok(f),
        },
    }
}

/// The reported function value: the center sample when it exists, else the
/// mean of the two nearest off-center samples.
pub open spec fn d0_model(nonsingular: bool, f0: int, fs1: int, fs2: int) -> int {
    if nonsingular {
        f0
    } else {
        q_avg(fs1, fs2)
    }
}

/// Central-difference first derivative: `(fs1 - fs2) / 2 / dx`.
pub open spec fn d1_model(fs1: int, fs2: int) -> Option<int> {
    match q_sub(fs1, fs2) {
        Option::None => Option::None,
        Option::Some(a) => q_div(sdiv(a, 2), DX_RAW as int),
    }
}

/// Second derivative: `(fs1 - 2 f0 + fs2) / dx / dx` through the center when
/// it exists, else `(fs0 - fs1 - fs2 + fs3) / 3 / dx / dx` without it.
pub open spec fn d2_model(
    nonsingular: bool,
    f0: int,
    fs0: int,
    fs1: int,
    fs2: int,
    fs3: int,
) -> Option<int> {
    let num = if nonsingular {
        match q_add(f0, f0) {
            Option::None => Option::None,
            Option::Some(t) => match q_sub(fs1, t) {
                Option::None => Option::None,
                Option::Some(a) => q_add(a, fs2),
            },
        }
    } else {
        match q_sub(fs0, fs1) {
            Option::None => Option::None,
            Option::Some(a) => match q_sub(a, fs2) {
                Option::None => Option::None,
                Option::Some(b) => q_add(b, fs3),
            },
        }
    };
    let scaled = if nonsingular {
        num
    } else {
        match num {
            Option::None => Option::None,
            Option::Some(n) => q_div(n, 3 * (SCALE as int)),
        }
    };
    match scaled {
        Option::None => Option::None,
        Option::Some(s) => match q_div(s, DX_RAW as int) {
            Option::None => Option::None,
            Option::Some(t) => q_div(t, DX_RAW as int),
        },
    }
}

/// Third derivative: `(fs0 - fs3 - 2 fs1 + 2 fs2) / 2 / dx / dx / dx`.
pub open spec fn d3_model(fs0: int, fs1: int, fs2: int, fs3: int) -> Option<int> {
    match q_add(fs1, fs1) {
        Option::None => Option::None,
        Option::Some(t1) => match q_add(fs2, fs2) {
            Option::None => Option::None,
            Option::Some(t2) => match q_sub(fs0, fs3) {
                Option::None => Option::None,
                Option::Some(a) => match q_sub(a, t1) {
                    Option::None => Option::None,
                    Option::Some(b) => match q_add(b, t2) {
                        Option::None => Option::None,
                        Option::Some(s) => match q_div(sdiv(s, 2), DX_RAW as int) {
                            Option::None => Option::None,
                            Option::Some(u) => match q_div(u, DX_RAW as int) {
                                Option::None => Option::None,
                                Option::Some(w) => q_div(w, DX_RAW as int),
                            },
                        },
                    },
                },
            },
        },
    }
}

/// Full model of a differentiation request.
pub open spec fn diff_spec<E: Evaluator>(e: E, x_str: Seq<char>, expr: Seq<char>) -> Result<
    Model,
    ErrModel,
> {
    match e.parse_model(x_str) {
        Option::None => Result::Err(ErrModel::Parse),
        Option::Some(x) => {
            let fc = e.eval1_model(expr, x);
            match sample_model(e, expr, x, 2 * DX_RAW as int) {
                Result::Err(er) => Result::Err(er),
                Result::Ok(fs0) => match sample_model(e, expr, x, DX_RAW as int) {
                    Result::Err(er) => Result::Err(er),
                    Result::Ok(fs1) => match sample_model(e, expr, x, -(DX_RAW as int)) {
                        Result::Err(er) => Result::Err(er),
                        Result::Ok(fs2) => match sample_model(e, expr, x, -2 * (DX_RAW as int)) {
                            Result::Err(er) => Result::Err(er),
                            Result::Ok(fs3) => {
                                let nonsingular = fc is Some;
                                let f0 = if nonsingular {
                                    fc->Some_0
                                } else {
                                    0
                                };
                                match (
                                    d1_model(fs1, fs2),
                                    d2_model(nonsingular, f0, fs0, fs1, fs2, fs3),
                                    d3_model(fs0, fs1, fs2, fs3),
                                ) {
                                    (Option::Some(d1), Option::Some(d2), Option::Some(d3)) => {
                                        Result::Ok(
                                            Model {
                                                x: x,
                                                nonsingular: nonsingular,
                                                derivs: seq![
                                                    d0_model(nonsingular, f0, fs1, fs2),
                                                    d1,
                                                    d2,
                                                    d3,
                                                ],
                                            },
                                        )
                                    },
                                    _ => Result::Err(ErrModel::Range),
                                }
                            },
                        },
                    },
                },
            }
        },
    }
}

/// One off-center sample, executable side.
fn sample<E: Evaluator>(e: &E, expr: &str, x: Fx, c: Fx) -> (r: Result<Fx, CalcError>)
    ensures
        match (r, sample_model(*e, expr@, x@, c@)) {
            (Result::Ok(f), Result::Ok(m)) => f@ == m,
            (Result::Err(er), Result::Err(m)) => er@ == m,
            _ => false,
        },
{
    match x.try_add(c) {
        Option::None => Result::Err(CalcError::Range),
        Option::Some(xk) => match e.evaluate_1var(expr, xk) {
            Option::None => Result::Err(CalcError::Eval),
            Option::Some(f) => Result::Ok(f),
        },
    }
}

/// First derivative, executable side.
fn d1_exec(fs1: Fx, fs2: Fx) -> (r: Option<Fx>)
    ensures
        crate::num::opt_matches(r, d1_model(fs1@, fs2@)),
{
    match fs1.try_sub(fs2) {
        Option::None => Option::None,
        Option::Some(a) => a.half().try_div(Fx::of(DX_RAW)),
    }
}

/// Second derivative, executable side.
fn d2_exec(nonsingular: bool, f0: Fx, fs0: Fx, fs1: Fx, fs2: Fx, fs3: Fx) -> (r: Option<Fx>)
    ensures
        crate::num::opt_matches(r, d2_model(nonsingular, f0@, fs0@, fs1@, fs2@, fs3@)),
{
    let num = if nonsingular {
        match f0.try_add(f0) {
            Option::None => Option::None,
            Option::Some(t) => match fs1.try_sub(t) {
                Option::None => Option::None,
                Option::Some(a) => a.try_add(fs2),
            },
        }
    } else {
        match fs0.try_sub(fs1) {
            Option::None => Option::None,
            Option::Some(a) => match a.try_sub(fs2) {
                Option::None => Option::None,
                Option::Some(b) => b.try_add(fs3),
            },
        }
    };
    let scaled = if nonsingular {
        num
    } else {
        match num {
            Option::None => Option::None,
            Option::Some(n) => n.try_div(Fx::of(3 * SCALE)),
        }
    };
    let dx = Fx::of(DX_RAW);
    match scaled {
        Option::None => Option::None,
        Option::Some(s) => match s.try_div(dx) {
            Option::None => Option::None,
            Option::Some(t) => t.try_div(dx),
        },
    }
}

/// Third derivative, executable side.
fn d3_exec(fs0: Fx, fs1: Fx, fs2: Fx, fs3: Fx) -> (r: Option<Fx>)
    ensures
        crate::num::opt_matches(r, d3_model(fs0@, fs1@, fs2@, fs3@)),
{
    let dx = Fx::of(DX_RAW);
    match fs1.try_add(fs1) {
        Option::None => Option::None,
        Option::Some(t1) => match fs2.try_add(fs2) {
            Option::None => Option::None,
            Option::Some(t2) => match fs0.try_sub(fs3) {
                Option::None => Option::None,
                Option::Some(a) => match a.try_sub(t1) {
                    Option::None => Option::None,
                    Option::Some(b) => match b.try_add(t2) {
                        Option::None => Option::None,
                        Option::Some(s) => match s.half().try_div(dx) {
                            Option::None => Option::None,
                            Option::Some(u) => match u.try_div(dx) {
                                Option::None => Option::None,
                                Option::Some(w) => w.try_div(dx),
                            },
                        },
                    },
                },
            },
        },
    }
}

/// Estimates the function and its first three derivatives at a point.
///
/// The outcome is exactly the value of [`diff_spec`] on the evaluator's
/// model: the result is a deterministic function of the inputs, and when the
/// center evaluation succeeds the reported function value is the oracle's
/// own value there.
pub fn raw<E: Evaluator>(e: &E, x_str: &str, input_str: &str) -> (r: Result<Results, CalcError>)
    ensures
        outcome_matches(r, diff_spec(*e, x_str@, input_str@)),
{
    let x = match e.parse_literal(x_str) {
        Option::None => {
            return Result::Err(CalcError::Parse);
        },
        Option::Some(x) => x,
    };
    let fc = e.evaluate_1var(input_str, x);
    let dx = Fx::of(DX_RAW);
    let fs0 = match sample(e, input_str, x, Fx::of(2 * DX_RAW)) {
        Result::Err(er) => {
            return Result::Err(er);
        },
        Result::Ok(f) => f,
    };
    let fs1 = match sample(e, input_str, x, dx) {
        Result::Err(er) => {
            return Result::Err(er);
        },
        Result::Ok(f) => f,
    };
    let fs2 = match sample(e, input_str, x, dx.neg()) {
        Result::Err(er) => {
            return Result::Err(er);
        },
        Result::Ok(f) => f,
    };
    let fs3 = match sample(e, input_str, x, Fx::of(-2 * DX_RAW)) {
        Result::Err(er) => {
            return Result::Err(er);
        },
        Result::Ok(f) => f,
    };
    let nonsingular = fc.is_some();
    let f0 = match fc {
        Option::Some(f) => f,
        Option::None => Fx::of(0),
    };
    let d0 = if nonsingular {
        f0
    } else {
        fs1.avg(fs2)
    };
    let d1 = match d1_exec(fs1, fs2) {
        Option::None => {
            return Result::Err(CalcError::Range);
        },
        Option::Some(v) => v,
    };
    let d2 = match d2_exec(nonsingular, f0, fs0, fs1, fs2, fs3) {
        Option::None => {
            return Result::Err(CalcError::Range);
        },
        Option::Some(v) => v,
    };
    let d3 = match d3_exec(fs0, fs1, fs2, fs3) {
        Option::None => {
            return Result::Err(CalcError::Range);
        },
        Option::Some(v) => v,
    };
    let mut derivs: Vec<Fx> = Vec::new();
    derivs.push(d0);
    derivs.push(d1);
    derivs.push(d2);
    derivs.push(d3);
    let res = Results { x, nonsingular, derivs };
    proof {
        let m = diff_spec(*e, x_str@, input_str@);
        assert(res@.derivs =~= m->Ok_0.derivs);
        assert(res@ =~= m->Ok_0);
    }
    Result::Ok(res)
}


/// Title of this page.
pub const TITLE: &'static str = "DIFFERENTIATION";

/// Usage text of this page.
pub const USAGE: &'static str = "In the url bar after <tt>/differentiation</tt> type the following: <tt>&sol;&lt;value of <i>x</i> at which to calculate function and derivatives&gt;&sol;&lt;function of <i>x</i>&gt;</tt>";

/// Worked example shown on this page.
pub const EXAMPLE: &'static str = "example: to differentiate the function 2<i>x</i> + 3/(<i>x</i><sup>4</sup> + 5) at <i>x</i> = 1, type <tt>/1/2x+3d(x**4+5)</tt> after the current url address. The results for the values of the function and of its first three derivatives should be <tt>2.5, 1.66..., -0.55..., and 1.11...</tt>";

/// One-line account of the algorithm.
pub const ALGORITHM: &'static str = "algorithm: finite differences for small values of &Delta;<i>x</i>, leaving out any reference to the particular point itself in the case of a removable singularity";

/// Description of the json form of a response.
pub const JSON_NOTE: &'static str = "json: type '/json' in the url bar immediately after 'differentiation' for this format rather than html. A successful response has three properties: 'x' (a number), 'nonsingular' (a boolean reflecting whether or not the function exists at the point), and 'derivs' (a 4-element array holding the function value and its first through third derivatives). An unsuccessful response has one property: 'message' (a string reporting the error).";

/// This page's full text.
pub open spec fn page_text() -> Seq<char> {
    TITLE@ + crate::SECTION_BREAK@ + crate::links_text(2) + crate::SECTION_BREAK@ + USAGE@
        + crate::SECTION_BREAK@ + EXAMPLE@ + crate::SECTION_BREAK@ + ALGORITHM@
        + crate::SECTION_BREAK@ + JSON_NOTE@
}

/// Builds this page: title, navigation, usage, example, algorithm and the
/// json note.
pub fn page() -> (r: String)
    ensures
        r@ == page_text(),
{
    let mut s = String::from_str(TITLE);
    s.append(crate::SECTION_BREAK);
    let l = crate::links(2);
    s.append(l.as_str());
    s.append(crate::SECTION_BREAK);
    s.append(USAGE);
    s.append(crate::SECTION_BREAK);
    s.append(EXAMPLE);
    s.append(crate::SECTION_BREAK);
    s.append(ALGORITHM);
    s.append(crate::SECTION_BREAK);
    s.append(JSON_NOTE);
    proof {
        assert(s@ =~= page_text());
    }
    s
}

} // verus!
