//! Definite integration by composite Simpson's rule with Aitken
//! acceleration.
//!
//! The sample set starts as the two endpoints (weight one half).  Each
//! refinement halves the step and inserts a midpoint between every pair of
//! existing samples: new points carry weight 2, previously-new points drop
//! to weight 1, and the endpoints keep weight one half.  The weighted sum
//! scaled by `4 dx / 3` is the Simpson estimate; since its error is
//! `O(dx^4)`, successive estimates are combined as
//! `new + (new - old) / 15`, and the loop stops when two consecutive
//! accelerated values agree to within `epsilon`.  The estimate is computed
//! as `((sum * dx) * 4) / 3`, large factor first, so that each truncation
//! stays at the scale of the result.  A refinement cap bounds the loop on
//! evaluators that never stabilise.

use vstd::prelude::*;
use vstd::string::StringExecFns;

use crate::eval::CalcError;
use crate::eval::ErrModel;
use crate::eval::Evaluator;
use crate::eval::Phase;
use crate::eval::outcome_matches;
use crate::num::Fx;
use crate::num::SCALE;
use crate::num::opt_view;
use crate::num::q_add;
use crate::num::q_div;
use crate::num::q_mul;
use crate::num::q_sub;
use crate::num::sabs;
use crate::num::sdiv;
use vstd::arithmetic::power2::pow2;

verus! {

/// Weight one half, in quanta.
pub const HALF_RAW: i64 = 50_000_000_000_000;

/// Convergence tolerance `epsilon = 10^-12`, in quanta.
pub const EPS_RAW: i64 = 100;

/// Cap on the number of step-halving refinements.
pub const MAX_REFINES: u32 = 30;

/// Outcome of an integration request: the bounds, the accelerated integral,
/// the subdivision count reached, and the tolerance used.
#[derive(Clone, Debug, PartialEq, Eq)]
pub struct Results {
    pub xi: Fx,
    pub xf: Fx,
    pub integral: Fx,
    pub subdivisions: i32,
    pub epsilon: Fx,
}

/// Spec-level image of [`Results`].
#[verifier::ext_equal]
pub struct Model {
    pub xi: int,
    pub xf: int,
    pub integral: int,
    pub subdivisions: int,
    pub epsilon: int,
}

impl View for Results {
    type V = Model;

    open spec fn view(&self) -> Model {
        Model {
            xi: self.xi@,
            xf: self.xf@,
            integral: self.integral@,
            subdivisions: self.subdivisions as int,
            epsilon: self.epsilon@,
        }
    }
}

/// View of a sample list: `(x, f, weight)` triples in quanta.
pub open spec fn pts_view(s: Seq<(Fx, Fx, Fx)>) -> Seq<(int, int, int)> {
    s.map_values(|p: (Fx, Fx, Fx)| (p.0@, p.1@, p.2@))
}

/// Whether two consecutive accelerated estimates exist and agree to within
/// `epsilon`.
pub open spec fn stop_cond(aitkens: Option<int>, aitkens_new: Option<int>) -> bool {
    &&& aitkens is Some
    &&& aitkens_new is Some
    &&& sabs(aitkens_new->Some_0 - aitkens->Some_0) <= EPS_RAW as int
}

/// One refinement sweep over the samples, from index `i` on: accumulates the
/// weighted sum and builds the doubled sample list.  The first sample keeps
/// weight one half; every other existing sample drops to weight 1; each
/// inserted midpoint carries weight 2.
pub open spec fn refine_pts<E: Evaluator>(
    e: E,
    expr: Seq<char>,
    pts: Seq<(int, int, int)>,
    dx: int,
    i: nat,
    acc: int,
    acc_pts: Seq<(int, int, int)>,
) -> Result<(int, Seq<(int, int, int)>), ErrModel>
    decreases pts.len() - i,
{
    if i >= pts.len() {
        Result::Ok((acc, acc_pts))
    } else {
        let pt = pts[i as int];
        match q_mul(pt.1, pt.2) {
            Option::None => Result::Err(ErrModel::Range),
            Option::Some(w) => match q_add(acc, w) {
                Option::None => Result::Err(ErrModel::Range),
                Option::Some(acc2) => match q_add(pt.0, dx) {
                    Option::None => Result::Err(ErrModel::Range),
                    Option::Some(x) => match e.eval1_model(expr, x) {
                        Option::None => Result::Err(ErrModel::EvalAt(pt.0)),
                        Option::Some(f) => {
                            let w1 = if i == 0 {
                                HALF_RAW as int
                            } else {
                                SCALE as int
                            };
                            refine_pts(
                                e,
                                expr,
                                pts,
                                dx,
                                i + 1,
                                acc2,
                                acc_pts.push((pt.0, pt.1, w1)).push((x, f, 2 * (SCALE as int))),
                            )
                        },
                    },
                },
            },
        }
    }
}

/// The next accelerated estimate: the new Simpson value, corrected by
/// `(new - old) / 15` once an older value exists.
pub open spec fn aitken_next(integral: Option<int>, base: int) -> Option<int> {
    match integral {
        Option::None => Option::Some(base),
        Option::Some(old) => match q_sub(base, old) {
            Option::None => Option::None,
            Option::Some(d) => match q_div(d, 15 * (SCALE as int)) {
                Option::None => Option::None,
                Option::Some(c) => q_add(base, c),
            },
        },
    }
}

/// The refinement loop: halve the step, sweep the samples, rescale, update
/// the accelerated pair, and recurse until two accelerated values agree or
/// the fuel runs out.
pub open spec fn integ_loop<E: Evaluator>(
    e: E,
    expr: Seq<char>,
    pts: Seq<(int, int, int)>,
    ptf: (int, int, int),
    dx: int,
    number: int,
    integral: Option<int>,
    aitkens: Option<int>,
    aitkens_new: Option<int>,
    fuel: nat,
) -> Result<(int, int), ErrModel>
    decreases fuel,
{
    if stop_cond(aitkens, aitkens_new) {
        Result::Ok((aitkens_new->Some_0, number))
    } else if fuel == 0 {
        Result::Err(ErrModel::Convergence(Phase::Refine))
    } else {
        let dx2 = sdiv(dx, 2);
        match q_mul(ptf.1, ptf.2) {
            Option::None => Result::Err(ErrModel::Range),
            Option::Some(acc0) => match refine_pts(e, expr, pts, dx2, 0, acc0, Seq::empty()) {
                Result::Err(er) => Result::Err(er),
                Result::Ok(sw) => match q_mul(sw.0, dx2) {
                    Option::None => Result::Err(ErrModel::Range),
                    Option::Some(fa) => match q_mul(fa, 4 * (SCALE as int)) {
                        Option::None => Result::Err(ErrModel::Range),
                        Option::Some(fb) => match q_div(fb, 3 * (SCALE as int)) {
                            Option::None => Result::Err(ErrModel::Range),
                            Option::Some(integral_new) => match aitken_next(
                                integral,
                                integral_new,
                            ) {
                                Option::None => Result::Err(ErrModel::Range),
                                Option::Some(an) => integ_loop(
                                    e,
                                    expr,
                                    sw.1,
                                    ptf,
                                    dx2,
                                    number * 2,
                                    Option::Some(integral_new),
                                    aitkens_new,
                                    Option::Some(an),
                                    (fuel - 1) as nat,
                                ),
                            },
                        },
                    },
                },
            },
        }
    }
}

/// Full model of an integration request.
pub open spec fn integ_spec<E: Evaluator>(
    e: E,
    xi_str: Seq<char>,
    xf_str: Seq<char>,
    expr: Seq<char>,
) -> Result<Model, ErrModel> {
    match e.parse_model(xi_str) {
        Option::None => Result::Err(ErrModel::Parse),
        Option::Some(xi) => match e.eval1_model(expr, xi) {
            Option::None => Result::Err(ErrModel::Eval),
            Option::Some(fi) => match e.parse_model(xf_str) {
                Option::None => Result::Err(ErrModel::Parse),
                Option::Some(xf) => match e.eval1_model(expr, xf) {
                    Option::None => Result::Err(ErrModel::Eval),
                    Option::Some(ff) => match q_sub(xf, xi) {
                        Option::None => Result::Err(ErrModel::Range),
                        Option::Some(dx0) => match integ_loop(
                            e,
                            expr,
                            seq![(xi, fi, HALF_RAW as int)],
                            (xf, ff, HALF_RAW as int),
                            dx0,
                            1,
                            Option::None,
                            Option::None,
                            Option::None,
                            MAX_REFINES as nat,
                        ) {
                            Result::Err(er) => Result::Err(er),
                            Result::Ok(p) => Result::Ok(
                                Model {
                                    xi: xi,
                                    xf: xf,
                                    integral: p.0,
                                    subdivisions: p.1,
                                    epsilon: EPS_RAW as int,
                                },
                            ),
                        },
                    },
                },
            },
        },
    }
}

/// Computes the definite integral of `f` from `xi` to `xf`.
///
/// The outcome is exactly the value of [`integ_spec`] on the evaluator's
/// model: Simpson refinement with Aitken acceleration, stopping the first
/// time two consecutive accelerated estimates agree to within `epsilon`,
/// and failing with a convergence error after `MAX_REFINES` refinements.
#[verifier::loop_isolation(false)]
pub fn raw<E: Evaluator>(e: &E, xi_str: &str, xf_str: &str, input_str: &str) -> (r: Result<
    Results,
    CalcError,
>)
    ensures
        outcome_matches(r, integ_spec(*e, xi_str@, xf_str@, input_str@)),
{
    let xi = match e.parse_literal(xi_str) {
        Option::None => {
            return Result::Err(CalcError::Parse);
        },
        Option::Some(w) => w,
    };
    let fi = match e.evaluate_1var(input_str, xi) {
        Option::None => {
            return Result::Err(CalcError::Eval);
        },
        Option::Some(w) => w,
    };
    let xf = match e.parse_literal(xf_str) {
        Option::None => {
            return Result::Err(CalcError::Parse);
        },
        Option::Some(w) => w,
    };
    let ff = match e.evaluate_1var(input_str, xf) {
        Option::None => {
            return Result::Err(CalcError::Eval);
        },
        Option::Some(w) => w,
    };
    let half = Fx::of(HALF_RAW);
    let mut dx = match xf.try_sub(xi) {
        Option::None => {
            return Result::Err(CalcError::Range);
        },
        Option::Some(w) => w,
    };
    let mut pts: Vec<(Fx, Fx, Fx)> = Vec::new();
    pts.push((xi, fi, half));
    let ghost ptf = (xf@, ff@, HALF_RAW as int);
    let ghost target = integ_loop(
        *e,
        input_str@,
        seq![(xi@, fi@, HALF_RAW as int)],
        ptf,
        dx@,
        1,
        Option::<int>::None,
        Option::<int>::None,
        Option::<int>::None,
        MAX_REFINES as nat,
    );
    proof {
        assert(pts_view(pts@) =~= seq![(xi@, fi@, HALF_RAW as int)]);
    }
    let mut number: i32 = 1;
    let mut integral: Option<Fx> = Option::None;
    let mut aitkens: Option<Fx> = Option::None;
    let mut aitkens_new: Option<Fx> = Option::None;
    let mut fuel: u32 = MAX_REFINES;
    let mut stop = false;
    proof {
        vstd::arithmetic::power2::lemma2_to64();
    }
    while !stop
        invariant
            stop == stop_cond(opt_view(aitkens), opt_view(aitkens_new)),
            fuel <= MAX_REFINES,
            number as int == pow2((MAX_REFINES - fuel) as nat),
            integ_loop(
                *e,
                input_str@,
                pts_view(pts@),
                ptf,
                dx@,
                number as int,
                opt_view(integral),
                opt_view(aitkens),
                opt_view(aitkens_new),
                fuel as nat,
            ) == target,
        decreases fuel,
    {
        if fuel == 0 {
            return Result::Err(CalcError::Convergence(Phase::Refine));
        }
        let ghost fuel_old = fuel as nat;
        let ghost number_old = number as int;
        let ghost dx_old = dx@;
        let ghost pts_old = pts_view(pts@);
        let ghost integral_old = opt_view(integral);
        let ghost aitkens_old = opt_view(aitkens);
        let ghost aitkens_new_old = opt_view(aitkens_new);
        fuel = fuel - 1;
        proof {
            vstd::arithmetic::power2::lemma2_to64();
            vstd::arithmetic::power2::lemma_pow2_strictly_increases(
                (MAX_REFINES - fuel_old) as nat,
                MAX_REFINES as nat,
            );
            vstd::arithmetic::power2::lemma_pow2_unfold((MAX_REFINES - fuel as nat) as nat);
        }
        number = number * 2;
        dx = dx.half();
        let acc0 = match ff.try_mul(half) {
            Option::None => {
                return Result::Err(CalcError::Range);
            },
            Option::Some(w) => w,
        };
        let ghost acc0g = acc0@;
        let mut acc = acc0;
        let mut new_pts: Vec<(Fx, Fx, Fx)> = Vec::new();
        let mut j: usize = 0;
        proof {
            assert(pts_view(new_pts@) =~= Seq::<(int, int, int)>::empty());
        }
        while j < pts.len()
            invariant
                j <= pts.len(),
                refine_pts(
                    *e,
                    input_str@,
                    pts_old,
                    dx@,
                    j as nat,
                    acc@,
                    pts_view(new_pts@),
                ) == refine_pts(
                    *e,
                    input_str@,
                    pts_old,
                    dx@,
                    0,
                    acc0g,
                    Seq::<(int, int, int)>::empty(),
                ),
            decreases pts.len() - j,
        {
            proof {
                assert(pts_view(pts@)[j as int] == (pts@[j as int].0@, pts@[j as int].1@, pts@[j as int].2@));
            }
            let pt = pts[j];
            let w = match pt.1.try_mul(pt.2) {
                Option::None => {
                    return Result::Err(CalcError::Range);
                },
                Option::Some(v) => v,
            };
            let acc2 = match acc.try_add(w) {
                Option::None => {
                    return Result::Err(CalcError::Range);
                },
                Option::Some(v) => v,
            };
            let x = match pt.0.try_add(dx) {
                Option::None => {
                    return Result::Err(CalcError::Range);
                },
                Option::Some(v) => v,
            };
            let f = match e.evaluate_1var(input_str, x) {
                Option::None => {
                    return Result::Err(CalcError::EvalAt(pt.0));
                },
                Option::Some(v) => v,
            };
            let wt1 = if j == 0 {
                half
            } else {
                Fx::of(SCALE)
            };
            let ghost new_old = pts_view(new_pts@);
            new_pts.push((pt.0, pt.1, wt1));
            new_pts.push((x, f, Fx::of(2 * SCALE)));
            acc = acc2;
            j = j + 1;
            proof {
                assert(pts_view(new_pts@) =~= new_old.push((pt.0@, pt.1@, wt1@)).push(
                    (x@, f@, 2 * (SCALE as int)),
                ));
            }
        }
        let area = match acc.try_mul(dx) {
            Option::None => {
                return Result::Err(CalcError::Range);
            },
            Option::Some(v) => v,
        };
        let area4 = match area.try_mul(Fx::of(4 * SCALE)) {
            Option::None => {
                return Result::Err(CalcError::Range);
            },
            Option::Some(v) => v,
        };
        let integral_new = match area4.try_div(Fx::of(3 * SCALE)) {
            Option::None => {
                return Result::Err(CalcError::Range);
            },
            Option::Some(v) => v,
        };
        let an = match integral {
            Option::None => integral_new,
            Option::Some(old) => {
                let d = match integral_new.try_sub(old) {
                    Option::None => {
                        return Result::Err(CalcError::Range);
                    },
                    Option::Some(v) => v,
                };
                let c = match d.try_div(Fx::of(15 * SCALE)) {
                    Option::None => {
                        return Result::Err(CalcError::Range);
                    },
                    Option::Some(v) => v,
                };
                match integral_new.try_add(c) {
                    Option::None => {
                        return Result::Err(CalcError::Range);
                    },
                    Option::Some(v) => v,
                }
            },
        };
        pts = new_pts;
        aitkens = aitkens_new;
        aitkens_new = Option::Some(an);
        integral = Option::Some(integral_new);
        stop = match (aitkens, aitkens_new) {
            (Option::Some(a), Option::Some(b)) => !b.abs_diff_gt(a, Fx::of(EPS_RAW)),
            _ => false,
        };
    }
    let intg = match aitkens_new {
        Option::Some(v) => v,
        Option::None => {
            proof {
                assert(false);
            }
            Fx::of(0)
        },
    };
    let res = Results { xi, xf, integral: intg, subdivisions: number, epsilon: Fx::of(EPS_RAW) };
    proof {
        let m = integ_spec(*e, xi_str@, xf_str@, input_str@);
        assert(res@ =~= m->Ok_0);
    }
    Result::Ok(res)
}


/// Title of this page.
pub const TITLE: &'static str = "INTEGRATION";

/// Usage text of this page.
pub const USAGE: &'static str = "In the url bar after <tt>/integration</tt> type the following: <tt>&sol;&lt;lower limit of integration&gt;&sol;&lt;upper limit of integration&gt;&sol;&lt;function of <i>x</i>&gt;</tt> Neither singularities (integrable or otherwise) nor infinite ranges of integration are allowed.";

/// Worked example shown on this page.
pub const EXAMPLE: &'static str = "example: to integrate the function 2<i>x</i> + 3/(<i>x</i><sup>4</sup> + 5) from <i>x</i> = 1 to 6, type <tt>/1/6/2x+3d(x**4+5)</tt> after the current url address. The result for this should be <tt>35.41...</tt>";

/// One-line account of the algorithm.
pub const ALGORITHM: &'static str = "algorithm: composite Simpson's rule and Aitken extrapolation";

/// Description of the json form of a response.
pub const JSON_NOTE: &'static str = "json: type '/json' in the url bar immediately after 'integration' for this format rather than html. A successful response has five properties: 'xi' and 'xf' are the limits of integration, 'integral' is the value of the definite integral, 'subdivisions' is the number of equally sized intervals required to achieve the absolute accuracy given in the last property, 'epsilon'. An unsuccessful response has one property: 'message' (a string reporting the error).";

/// This page's full text.
pub open spec fn page_text() -> Seq<char> {
    TITLE@ + crate::SECTION_BREAK@ + crate::links_text(3) + crate::SECTION_BREAK@ + USAGE@
        + crate::SECTION_BREAK@ + EXAMPLE@ + crate::SECTION_BREAK@ + ALGORITHM@
        + crate::SECTION_BREAK@ + JSON_NOTE@
}

/// Builds this page: title, navigation, usage, example, algorithm and the
/// json note.
pub fn page() -> (r: String)
    ensures
        r@ == page_text(),
{
    let mut s = String::from_str(TITLE);
    s.append(crate::SECTION_BREAK);
    let l = crate::links(3);
    s.append(l.as_str());
    s.append(crate::SECTION_BREAK);
    s.append(USAGE);
    s.append(crate::SECTION_BREAK);
    s.append(EXAMPLE);
    s.append(crate::SECTION_BREAK);
    s.append(ALGORITHM);
    s.append(crate::SECTION_BREAK);
    s.append(JSON_NOTE);
    proof {
        assert(s@ =~= page_text());
    }
    s
}

} // verus!
