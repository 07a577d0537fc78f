use calculus::differentiation;
use calculus::eval::CalcError;
use calculus::eval::Evaluator;
use calculus::integration;
use calculus::max_finding;
use calculus::num::Fx;
use calculus::ode;
use calculus::ode2;
use calculus::root_finding;

const SCALE_F: f64 = 1e14;

/// A deterministic oracle for a fixed family of expressions, evaluated in
/// double precision and rounded to the library's quantum.
struct TestEval;

fn to_f(x: Fx) -> f64 {
    x.raw() as f64 / SCALE_F
}

fn to_fx(v: f64) -> Option<Fx> {
    if !v.is_finite() {
        return None;
    }
    let r = (v * SCALE_F).round();
    if r.abs() > 9.0e18 {
        return None;
    }
    Fx::from_raw(r as i64)
}

fn f1(expr: &str, x: f64) -> Option<f64> {
    match expr {
        "2x+3d(x**4+5)" => Some(2.0 * x + 3.0 / (x.powi(4) + 5.0)),
        "2x-3d(x**4+5)" => Some(2.0 * x - 3.0 / (x.powi(4) + 5.0)),
        "sin(x)+xd2" => Some(x.sin() + x / 2.0),
        "x**3" => Some(x * x * x),
        "1dx" => {
            if x == 0.0 {
                None
            } else {
                Some(1.0 / x)
            }
        },
        "sin(x)dx" => {
            if x == 0.0 {
                None
            } else {
                Some(x.sin() / x)
            }
        },
        "5" => Some(5.0),
        "x" => Some(x),
        _ => None,
    }
}

impl Evaluator for TestEval {
    fn parse_literal(&self, s: &str) -> Option<Fx> {
        match s.parse::<f64>() {
            Ok(v) => to_fx(v),
            Err(_) => None,
        }
    }

    fn evaluate_1var(&self, expr: &str, x: Fx) -> Option<Fx> {
        match f1(expr, to_f(x)) {
            Some(v) => to_fx(v),
            None => None,
        }
    }

    fn evaluate_2var(&self, expr: &str, x: Fx, t: Fx) -> Option<Fx> {
        let (xv, tv) = (to_f(x), to_f(t));
        match expr {
            "2x-t-2" => to_fx(2.0 * xv - tv - 2.0),
            _ => None,
        }
    }

    fn evaluate_3var(&self, expr: &str, x: Fx, t: Fx, v: Fx) -> Option<Fx> {
        let (xv, tv, vv) = (to_f(x), to_f(t), to_f(v));
        match expr {
            "-2x-v+3t" => to_fx(-2.0 * xv - vv + 3.0 * tv),
            _ => None,
        }
    }
}

#[test]
fn diff_example() {
    let r = differentiation::raw(&TestEval, "1", "2x+3d(x**4+5)").unwrap();
    assert!(r.nonsingular);
    assert_eq!(to_f(r.x), 1.0);
    assert_eq!(r.derivs.len(), 4);
    let d0 = to_f(r.derivs[0]);
    let d1 = to_f(r.derivs[1]);
    let d2 = to_f(r.derivs[2]);
    let d3 = to_f(r.derivs[3]);
    assert_eq!(d0, 2.5, "the center value is the oracle value, exactly");
    assert!((d1 - 1.6666666).abs() < 1e-3, "f' = {}", d1);
    assert!((d2 + 0.5555555).abs() < 1e-2, "f'' = {}", d2);
    assert!((d3 - 1.1111111).abs() < 0.05, "f''' = {}", d3);
}

#[test]
fn diff_singular_center() {
    let r = differentiation::raw(&TestEval, "0", "sin(x)dx").unwrap();
    assert!(!r.nonsingular);
    let d0 = to_f(r.derivs[0]);
    let d1 = to_f(r.derivs[1]);
    assert!((d0 - 1.0).abs() < 1e-5, "limit = {}", d0);
    assert!(d1.abs() < 1e-6, "f' = {}", d1);
}

#[test]
fn diff_parse_error() {
    let r = differentiation::raw(&TestEval, "abc", "2x+3d(x**4+5)");
    assert_eq!(r.unwrap_err(), CalcError::Parse);
}

#[test]
fn diff_eval_error() {
    let r = differentiation::raw(&TestEval, "1", "unknown");
    assert_eq!(r.unwrap_err(), CalcError::Eval);
}

#[test]
fn diff_idempotent() {
    let a = differentiation::raw(&TestEval, "1", "2x+3d(x**4+5)");
    let b = differentiation::raw(&TestEval, "1", "2x+3d(x**4+5)");
    assert_eq!(a, b);
}

#[test]
fn integration_example() {
    let r = integration::raw(&TestEval, "1", "6", "2x+3d(x**4+5)").unwrap();
    let integral = to_f(r.integral);
    assert!((integral - 35.413581).abs() < 1e-4, "integral = {}", integral);
    assert_eq!(to_f(r.xi), 1.0);
    assert_eq!(to_f(r.xf), 6.0);
    assert_eq!(r.epsilon.raw(), 100);
    assert!(r.subdivisions >= 2 && r.subdivisions <= 8192);
}

#[test]
fn integration_cubic_is_quickly_exact() {
    let r = integration::raw(&TestEval, "0", "2", "x**3").unwrap();
    let integral = to_f(r.integral);
    assert!((integral - 4.0).abs() < 1e-9, "integral = {}", integral);
    assert!(r.subdivisions <= 64, "subdivisions = {}", r.subdivisions);
}

#[test]
fn integration_eval_at_error() {
    let r = integration::raw(&TestEval, "-1", "1", "1dx");
    match r.unwrap_err() {
        CalcError::EvalAt(p) => assert_eq!(p.raw(), -100_000_000_000_000),
        other => panic!("unexpected error {:?}", other),
    }
}

#[test]
fn integration_idempotent() {
    let a = integration::raw(&TestEval, "1", "6", "2x+3d(x**4+5)");
    let b = integration::raw(&TestEval, "1", "6", "2x+3d(x**4+5)");
    assert_eq!(a, b);
}

#[test]
fn root_example() {
    let r = root_finding::raw(&TestEval, "1", "2x-3d(x**4+5)").unwrap();
    let x = to_f(r.x);
    assert!((x - 0.29951789).abs() < 1e-6, "root = {}", x);
    let fr = f1("2x-3d(x**4+5)", x).unwrap();
    assert!(fr.abs() < 1e-5, "f(root) = {}", fr);
    assert_eq!(to_f(r.xi), 1.0);
    assert_eq!(r.epsilon.raw(), 100);
    assert!(r.bracket_steps >= 1);
}

#[test]
fn root_never_brackets() {
    let r = root_finding::raw(&TestEval, "1", "5");
    assert_eq!(r.unwrap_err(), CalcError::Range);
}

#[test]
fn root_idempotent() {
    let a = root_finding::raw(&TestEval, "1", "2x-3d(x**4+5)");
    let b = root_finding::raw(&TestEval, "1", "2x-3d(x**4+5)");
    assert_eq!(a, b);
}

#[test]
fn max_example() {
    let r = max_finding::raw(&TestEval, "1", "sin(x)+xd2").unwrap();
    let x = to_f(r.x);
    let f = to_f(r.f);
    assert!((x - 2.094416).abs() < 1e-4, "max at {}", x);
    assert!((f - 1.913223).abs() < 1e-4, "max value {}", f);
    assert_eq!(r.epsilon.raw(), 1_000_000_000);
}

#[test]
fn max_never_brackets() {
    let r = max_finding::raw(&TestEval, "1", "x");
    assert_eq!(r.unwrap_err(), CalcError::Range);
}

#[test]
fn max_idempotent() {
    let a = max_finding::raw(&TestEval, "1", "sin(x)+xd2");
    let b = max_finding::raw(&TestEval, "1", "sin(x)+xd2");
    assert_eq!(a, b);
}

#[test]
fn ode_example() {
    let r = ode::raw(&TestEval, "1", "2", "10", "2x-t-2").unwrap();
    assert_eq!(r.nt, 10);
    assert_eq!(r.xs.len(), 11);
    assert_eq!(to_f(r.xs[0]), 1.0);
    let last = to_f(r.xs[10]);
    assert!((last + 11.391180).abs() < 1e-4, "x(2) = {}", last);
}

#[test]
fn ode_rejects_zero_steps() {
    let r = ode::raw(&TestEval, "1", "2", "0", "2x-t-2");
    assert!(matches!(r.unwrap_err(), CalcError::Config(_)));
}

#[test]
fn ode_rejects_negative_steps() {
    let r = ode::raw(&TestEval, "1", "2", "-3", "2x-t-2");
    assert!(matches!(r.unwrap_err(), CalcError::Config(_)));
}

#[test]
fn ode_rejects_fractional_steps() {
    let r = ode::raw(&TestEval, "1", "2", "2.5", "2x-t-2");
    assert!(matches!(r.unwrap_err(), CalcError::Config(_)));
}

#[test]
fn ode_idempotent() {
    let a = ode::raw(&TestEval, "1", "2", "10", "2x-t-2");
    let b = ode::raw(&TestEval, "1", "2", "10", "2x-t-2");
    assert_eq!(a, b);
}

#[test]
fn ode2_example() {
    let r = ode2::raw(&TestEval, "0", "1", "4", "10", "-2x-v+3t").unwrap();
    assert_eq!(r.nt, 10);
    assert_eq!(r.xs.len(), 11);
    assert_eq!(r.vs.len(), 11);
    assert_eq!(to_f(r.xs[0]), 0.0);
    assert_eq!(to_f(r.vs[0]), 1.0);
    let x4 = to_f(r.xs[10]);
    let v4 = to_f(r.vs[10]);
    assert!((x4 - 5.316531).abs() < 1e-4, "x(4) = {}", x4);
    assert!((v4 - 1.570535).abs() < 1e-4, "v(4) = {}", v4);
}

#[test]
fn ode2_rejects_bad_step_counts() {
    for nt in ["0", "-1", "3.25"] {
        let r = ode2::raw(&TestEval, "0", "1", "4", nt, "-2x-v+3t");
        assert!(matches!(r.unwrap_err(), CalcError::Config(_)));
    }
}

#[test]
fn ode2_idempotent() {
    let a = ode2::raw(&TestEval, "0", "1", "4", "10", "-2x-v+3t");
    let b = ode2::raw(&TestEval, "0", "1", "4", "10", "-2x-v+3t");
    assert_eq!(a, b);
}
