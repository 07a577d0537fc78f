//! Numerical evaluation of properties of a caller-supplied real function:
//! finite-difference derivatives, adaptive Simpson integration, root and
//! maximum finding by bracketing and interpolation, and fixed-step
//! Runge-Kutta integration of first- and second-order ordinary
//! differential equations.
//!
//! The function itself is an opaque oracle: callers supply an [`eval::Evaluator`]
//! that maps an expression string and a point to a value.  All arithmetic is
//! carried out on [`num::Fx`] fixed-point numbers, so every solver's outcome
//! is pinned exactly, by its contract, to a mathematical recurrence over the
//! evaluator's model.

pub mod differentiation;
pub mod eval;
pub mod integration;
pub mod laws;
pub mod max_finding;
pub mod num;
pub mod ode;
pub mod ode2;
pub mod root_finding;

use vstd::prelude::*;
use vstd::string::StringExecFns;

verus! {

/// Greeting shown on the landing page.
pub const INSTRUCTIONS: &'static str = "WELCOME TO MY CALCULUS APP";

/// Separator between page sections.
pub const SECTION_BREAK: &'static str = "<br><br>";

/// Header naming the creator and the repository.
pub const LINKS_HEADER: &'static str =
    "creator:&nbsp;<a href='https://pknipp.github.io/' target='_blank' rel='noopener noreferrer'>Peter Knipp</a><br/>repo:&nbsp;<a href='https://github.com/pknipp/calculus' target='_blank' rel='noopener noreferrer'>github.com/pknipp/calculus</a><br/><br/>";

/// Link back to the collection of mathematics pages.
pub const LINK_MATH: &'static str =
    "<a href='https://pknipp.github.io/math'>back to</a> math APIs page<br>";

/// Link back to the landing page.
pub const LINK_HOME: &'static str =
    "<a href='https://basic-calculus.herokuapp.com'>back to</a> calculus page<br>";

/// Link to the differentiation page.
pub const LINK_DIFF: &'static str =
    "<a href='https://basic-calculus.herokuapp.com/differentiation'>differentiation</a><br>";

/// Link to the integration page.
pub const LINK_INTEG: &'static str =
    "<a href='https://basic-calculus.herokuapp.com/integration'>integration</a><br>";

/// Link to the root-finding page.
pub const LINK_ROOT: &'static str =
    "<a href='https://basic-calculus.herokuapp.com/root-finding'>root-finding</a><br>";

/// Link to the max-finding page.
pub const LINK_MAX: &'static str =
    "<a href='https://basic-calculus.herokuapp.com/max-finding'>max-finding</a><br>";

/// Link to the first-order differential-equation page.
pub const LINK_ODE: &'static str =
    "<a href='https://basic-calculus.herokuapp.com/ode'>1st order</a> differential equations<br>";

/// Link to the second-order differential-equation page.
pub const LINK_ODE2: &'static str =
    "<a href='https://basic-calculus.herokuapp.com/ode2'>2nd order</a> differential equations<br>";

/// One navigation entry, or nothing for the page's own index.
pub open spec fn link_item(n: int, j: int, s: Seq<char>) -> Seq<char> {
    if n == j {
        Seq::empty()
    } else {
        s
    }
}

/// The navigation block: header plus every link but the page's own.
pub open spec fn links_text(n: int) -> Seq<char> {
    LINKS_HEADER@ + link_item(n, 0, LINK_MATH@) + link_item(n, 1, LINK_HOME@) + link_item(
        n,
        2,
        LINK_DIFF@,
    ) + link_item(n, 3, LINK_INTEG@) + link_item(n, 4, LINK_ROOT@) + link_item(n, 5, LINK_MAX@)
        + link_item(n, 6, LINK_ODE@) + link_item(n, 7, LINK_ODE2@)
}

/// Builds the navigation block shown on page `n`, omitting that page's own
/// link.
pub fn links(n: i32) -> (r: String)
    ensures
        r@ == links_text(n as int),
{
    let mut s = String::from_str(LINKS_HEADER);
    if n != 0 {
        s.append(LINK_MATH);
    }
    if n != 1 {
        s.append(LINK_HOME);
    }
    if n != 2 {
        s.append(LINK_DIFF);
    }
    if n != 3 {
        s.append(LINK_INTEG);
    }
    if n != 4 {
        s.append(LINK_ROOT);
    }
    if n != 5 {
        s.append(LINK_MAX);
    }
    if n != 6 {
        s.append(LINK_ODE);
    }
    if n != 7 {
        s.append(LINK_ODE2);
    }
    proof {
        assert(s@ =~= links_text(n as int));
    }
    s
}

/// The landing page's text.
pub open spec fn general_page_text() -> Seq<char> {
    "<p align=center>"@ + INSTRUCTIONS@ + "</p><p align=center>"@ + links_text(1) + "</p>"@
}

/// Builds the landing page: the greeting and the navigation block.
pub fn general_page() -> (r: String)
    ensures
        r@ == general_page_text(),
{
    let mut s = String::from_str("<p align=center>");
    s.append(INSTRUCTIONS);
    s.append("</p><p align=center>");
    let l = links(1);
    s.append(l.as_str());
    s.append("</p>");
    proof {
        assert(s@ =~= general_page_text());
    }
    s
}

} // verus!
