//! The function evaluator: an opaque, possibly-failing oracle supplied by the
//! caller, together with the typed errors every solver reports.
//!
//! A solver never inspects an expression itself; it only hands the expression
//! string and a point to an [`Evaluator`].  The trait couples each executable
//! method to a spec-level model of the oracle, so a solver's contract can
//! state its result as an exact function of that model.  An implementation
//! must behave as a deterministic function of its arguments; failure (a
//! malformed expression, a point outside the function's domain, a value out
//! of the representable range) is reported as `None`.

use vstd::prelude::*;

use crate::num::Fx;
use crate::num::opt_matches;

verus! {

/// Where an iteration budget ran out.
#[derive(Clone, Copy, Debug, PartialEq, Eq, Structural)]
pub enum Phase {
    /// While growing an interval around the start point.
    Bracket,
    /// While refining an already-bracketed interval.
    Refine,
}

/// A solver's typed error.
///
/// `Parse` reports a malformed numeric literal; `Eval` and `EvalAt` report
/// that the oracle failed at a required point (`EvalAt` names the sample the
/// failing point was derived from); `Config` reports a structurally invalid
/// step count; `Convergence` reports an exhausted iteration budget; and
/// `Range` reports an intermediate value outside the representable
/// fixed-point range.
#[derive(Clone, Copy, Debug, PartialEq, Eq)]
pub enum CalcError {
    Parse,
    Eval,
    EvalAt(Fx),
    Config(Fx),
    Convergence(Phase),
    Range,
}

/// Spec-level image of a [`CalcError`], with integer payloads.
pub enum ErrModel {
    Parse,
    Eval,
    EvalAt(int),
    Config(int),
    Convergence(Phase),
    Range,
}

impl View for CalcError {
    type V = ErrModel;

    open spec fn view(&self) -> ErrModel {
        match *self {
            CalcError::Parse => ErrModel::Parse,
            CalcError::Eval => ErrModel::Eval,
            CalcError::EvalAt(x) => ErrModel::EvalAt(x@),
            CalcError::Config(x) => ErrModel::Config(x@),
            CalcError::Convergence(p) => ErrModel::Convergence(p),
            CalcError::Range => ErrModel::Range,
        }
    }
}

/// Relates a solver's executable outcome to its spec-level model.
pub open spec fn outcome_matches<T: View>(
    r: Result<T, CalcError>,
    m: Result<<T as View>::V, ErrModel>,
) -> bool {
    match (r, m) {
        (Result::Ok(a), Result::Ok(b)) => a@ == b,
        (Result::Err(a), Result::Err(b)) => a@ == b,
        _ => false,
    }
}

/// The black-box oracle every solver samples.
///
/// Each executable method is pinned to a spec model of the same arity, so
/// two calls on equal arguments return equal results: the oracle is a
/// mathematical function of the expression and the point.  Each model
/// defaults to the oracle that always fails; a verified implementation
/// overrides it with its own model, while an unverified one (whose
/// contracts nothing checks) may leave the defaults in place.
pub trait Evaluator {
    /// Model of parsing a plain numeric literal.
    open spec fn parse_model(&self, s: Seq<char>) -> Option<int> {
        Option::None
    }

    /// Model of evaluating an expression in the single variable `x`.
    open spec fn eval1_model(&self, expr: Seq<char>, x: int) -> Option<int> {
        Option::None
    }

    /// Model of evaluating an expression in `x` and `t`.
    open spec fn eval2_model(&self, expr: Seq<char>, x: int, t: int) -> Option<int> {
        Option::None
    }

    /// Model of evaluating an expression in `x`, `t` and `v`.
    open spec fn eval3_model(&self, expr: Seq<char>, x: int, t: int, v: int) -> Option<int> {
        Option::None
    }

    /// Parses a numeric literal such as a bound or a start point.
    fn parse_literal(&self, s: &str) -> (r: Option<Fx>)
        ensures
            opt_matches(r, self.parse_model(s@)),
    ;

    /// Evaluates a function of `x` at a point.
    fn evaluate_1var(&self, expr: &str, x: Fx) -> (r: Option<Fx>)
        ensures
            opt_matches(r, self.eval1_model(expr@, x@)),
    ;

    /// Evaluates a function of `x` and `t` at a point.
    fn evaluate_2var(&self, expr: &str, x: Fx, t: Fx) -> (r: Option<Fx>)
        ensures
            opt_matches(r, self.eval2_model(expr@, x@, t@)),
    ;

    /// Evaluates a function of `x`, `t` and `v` at a point.
    fn evaluate_3var(&self, expr: &str, x: Fx, t: Fx, v: Fx) -> (r: Option<Fx>)
        ensures
            opt_matches(r, self.eval3_model(expr@, x@, t@, v@)),
    ;
}

} // verus!
