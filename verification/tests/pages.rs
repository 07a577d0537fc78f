use calculus::differentiation;
use calculus::general_page;
use calculus::integration;
use calculus::links;
use calculus::max_finding;
use calculus::num::Fx;
use calculus::ode;
use calculus::ode2;
use calculus::root_finding;

#[test]
fn landing_page_greets() {
    let p = general_page();
    assert!(p.contains("WELCOME TO MY CALCULUS APP"));
    assert!(p.starts_with("<p align=center>"));
    assert!(p.ends_with("</p>"));
}

#[test]
fn links_skip_own_page() {
    let l = links(2);
    assert!(!l.contains("/differentiation"));
    assert!(l.contains("/integration"));
    assert!(l.contains("/root-finding"));
    let l4 = links(4);
    assert!(l4.contains("/differentiation"));
    assert!(!l4.contains("/root-finding"));
}

#[test]
fn links_carry_header() {
    let l = links(0);
    assert!(l.starts_with("creator:&nbsp;"));
    assert!(l.contains("github.com/pknipp/calculus"));
}

#[test]
fn pages_carry_their_titles() {
    assert!(differentiation::page().contains("DIFFERENTIATION"));
    assert!(integration::page().contains("INTEGRATION"));
    assert!(root_finding::page().contains("ROOT-FINDING"));
    assert!(max_finding::page().contains("MAX-FINDING"));
    assert!(ode::page().contains("1ST-ORDER DIFFERENTIAL EQUATIONS"));
    assert!(ode2::page().contains("2ND-ORDER DIFFERENTIAL EQUATIONS"));
}

#[test]
fn pages_name_their_algorithms() {
    assert!(integration::page().contains("Simpson"));
    assert!(root_finding::page().contains("inverse quadratic interpolation"));
    assert!(ode::page().contains("Runge-Kutta"));
}

#[test]
fn fixed_point_raw_round_trip() {
    let a = Fx::from_raw(250_000_000_000_000).unwrap();
    assert_eq!(a.raw(), 250_000_000_000_000);
    assert!(Fx::from_raw(i64::MAX).is_none());
    assert!(Fx::from_raw(-9_000_000_000_000_000_001).is_none());
}

#[test]
fn fixed_point_arithmetic() {
    let a = Fx::from_raw(300_000_000_000_000).unwrap();
    let b = Fx::from_raw(200_000_000_000_000).unwrap();
    assert_eq!(a.try_add(b).unwrap().raw(), 500_000_000_000_000);
    assert_eq!(a.try_sub(b).unwrap().raw(), 100_000_000_000_000);
    assert_eq!(a.try_mul(b).unwrap().raw(), 600_000_000_000_000);
    assert_eq!(a.try_div(b).unwrap().raw(), 150_000_000_000_000);
    assert!(a.try_div(Fx::from_raw(0).unwrap()).is_none());
    assert_eq!(a.avg(b).raw(), 250_000_000_000_000);
    assert_eq!(a.neg().raw(), -300_000_000_000_000);
}
