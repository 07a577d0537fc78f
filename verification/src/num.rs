//! Fixed-point numbers: the scaled-integer arithmetic every solver runs on.
//!
//! A real value is held as an `i64` count of quanta of `1/SCALE`
//! (one part in `10^14`), kept within `±BOUND` so that every product and
//! quotient fits an `i128` intermediate.  Each fallible operation mirrors a total spec
//! function over `int`, so a solver's result can be pinned exactly to a
//! mathematical recurrence on the scaled integers.

use vstd::prelude::*;

verus! {

/// Number of quanta per unit: values are integers scaled by `10^14`.
pub const SCALE: i64 = 100_000_000_000_000;

/// Largest magnitude (in quanta) a value may take: `9 * 10^4` units.
pub const BOUND: i64 = 9_000_000_000_000_000_000;

/// Magnitude of a mathematical integer.
pub open spec fn sabs(a: int) -> int {
    if a >= 0 {
        a
    } else {
        -a
    }
}

/// Division truncated toward zero, as the executable code computes it
/// (quotient of the magnitudes, with the sign reapplied).
pub open spec fn sdiv(a: int, b: int) -> int {
    if (a >= 0) == (b >= 0) {
        sabs(a) / sabs(b)
    } else {
        -(sabs(a) / sabs(b))
    }
}

/// Whether a scaled value lies within the representable range.
pub open spec fn in_bound(a: int) -> bool {
    -(BOUND as int) <= a <= BOUND as int
}

/// Model of fallible addition of two scaled values.
pub open spec fn q_add(a: int, b: int) -> Option<int> {
    if in_bound(a + b) {
        Some(a + b)
    } else {
        None
    }
}

/// Model of fallible subtraction of two scaled values.
pub open spec fn q_sub(a: int, b: int) -> Option<int> {
    if in_bound(a - b) {
        Some(a - b)
    } else {
        None
    }
}

/// Model of fallible multiplication of two scaled values.
pub open spec fn q_mul(a: int, b: int) -> Option<int> {
    let p = sdiv(a * b, SCALE as int);
    if in_bound(p) {
        Some(p)
    } else {
        None
    }
}

/// Model of fallible division of two scaled values.
pub open spec fn q_div(a: int, b: int) -> Option<int> {
    if b == 0 {
        None
    } else {
        let p = sdiv(a * (SCALE as int), b);
        if in_bound(p) {
            Some(p)
        } else {
            None
        }
    }
}

/// Model of the (total) midpoint of two scaled values.
pub open spec fn q_avg(a: int, b: int) -> int {
    sdiv(a + b, 2)
}

/// A real number in fixed-point representation: `v` quanta of `1/SCALE`.
#[derive(Clone, Copy, Debug, PartialEq, Eq, Structural)]
pub struct Fx {
    v: i64,
}

impl View for Fx {
    type V = int;

    closed spec fn view(&self) -> int {
        self.v as int
    }
}

/// Truncating division on `i128`, with the quotient's magnitude pinned.
fn div_trunc(a: i128, b: i128) -> (r: i128)
    requires
        b != 0,
        a > i128::MIN,
        b > i128::MIN,
    ensures
        r == sdiv(a as int, b as int),
        sabs(r as int) == sabs(a as int) / sabs(b as int),
{
    let ua: u128 = if a >= 0 {
        a as u128
    } else {
        (-a) as u128
    };
    let ub: u128 = if b >= 0 {
        b as u128
    } else {
        (-b) as u128
    };
    let q: u128 = ua / ub;
    proof {
        assert(ua as int == sabs(a as int));
        assert(ub as int == sabs(b as int));
        assert(q as int <= ua as int) by (nonlinear_arith)
            requires
                q == ua as int / ub as int,
                ub >= 1,
                ua >= 0,
        ;
    }
    if (a >= 0) == (b >= 0) {
        q as i128
    } else {
        -(q as i128)
    }
}

impl Fx {
    /// Every executable value stays within `±BOUND`.
    #[verifier::type_invariant]
    pub(crate) open spec fn wf(self) -> bool {
        in_bound(self@)
    }

    /// Wraps a raw quantum count known statically to be in range.
    pub fn of(v: i64) -> (r: Fx)
        requires
            in_bound(v as int),
        ensures
            r@ == v as int,
    {
        Fx { v }
    }

    /// Wraps a raw quantum count, rejecting one out of range.
    pub fn from_raw(v: i64) -> (r: Option<Fx>)
        ensures
            match r {
                Some(f) => f@ == v as int && in_bound(v as int),
                None => !in_bound(v as int),
            },
    {
        if -BOUND <= v && v <= BOUND {
            Some(Fx { v })
        } else {
            None
        }
    }

    /// The raw quantum count.
    pub fn raw(self) -> (r: i64)
        ensures
            r as int == self@,
    {
        self.v
    }

    /// Addition; fails when the sum leaves the representable range.
    pub fn try_add(self, o: Fx) -> (r: Option<Fx>)
        ensures
            opt_matches(r, q_add(self@, o@)),
    {
        proof {
            use_type_invariant(&self);
            use_type_invariant(&o);
        }
        let s: i128 = (self.v as i128) + (o.v as i128);
        if -(BOUND as i128) <= s && s <= BOUND as i128 {
            Some(Fx { v: s as i64 })
        } else {
            None
        }
    }

    /// Subtraction; fails when the difference leaves the representable range.
    pub fn try_sub(self, o: Fx) -> (r: Option<Fx>)
        ensures
            opt_matches(r, q_sub(self@, o@)),
    {
        proof {
            use_type_invariant(&self);
            use_type_invariant(&o);
        }
        let s: i128 = (self.v as i128) - (o.v as i128);
        if -(BOUND as i128) <= s && s <= BOUND as i128 {
            Some(Fx { v: s as i64 })
        } else {
            None
        }
    }

    /// Multiplication of two scaled values; fails on range overflow.
    pub fn try_mul(self, o: Fx) -> (r: Option<Fx>)
        ensures
            opt_matches(r, q_mul(self@, o@)),
    {
        proof {
            use_type_invariant(&self);
            use_type_invariant(&o);
            assert(-0x4000_0000_0000_0000_0000_0000_0000_0000 < (self.v as int) * (o.v as int)
                < 0x4000_0000_0000_0000_0000_0000_0000_0000) by (nonlinear_arith)
                requires
                    -(BOUND as int) <= self.v as int <= BOUND as int,
                    -(BOUND as int) <= o.v as int <= BOUND as int,
            ;
        }
        let p: i128 = (self.v as i128) * (o.v as i128);
        let q: i128 = div_trunc(p, SCALE as i128);
        if -(BOUND as i128) <= q && q <= BOUND as i128 {
            Some(Fx { v: q as i64 })
        } else {
            None
        }
    }

    /// Division of two scaled values; fails on a zero divisor or overflow.
    pub fn try_div(self, o: Fx) -> (r: Option<Fx>)
        ensures
            opt_matches(r, q_div(self@, o@)),
    {
        proof {
            use_type_invariant(&self);
            use_type_invariant(&o);
        }
        if o.v == 0 {
            return None;
        }
        proof {
            assert(-0x4000_0000_0000_0000_0000_0000_0000_0000 < (self.v as int) * (SCALE as int)
                < 0x4000_0000_0000_0000_0000_0000_0000_0000) by (nonlinear_arith)
                requires
                    -(BOUND as int) <= self.v as int <= BOUND as int,
            ;
        }
        let p: i128 = (self.v as i128) * (SCALE as i128);
        let q: i128 = div_trunc(p, o.v as i128);
        if -(BOUND as i128) <= q && q <= BOUND as i128 {
            Some(Fx { v: q as i64 })
        } else {
            None
        }
    }

    /// Midpoint of two values; always representable.
    pub fn avg(self, o: Fx) -> (r: Fx)
        ensures
            r@ == q_avg(self@, o@),
    {
        proof {
            use_type_invariant(&self);
            use_type_invariant(&o);
        }
        let s: i128 = (self.v as i128) + (o.v as i128);
        let q: i128 = div_trunc(s, 2);
        proof {
            assert(sabs(s as int) <= 2 * (BOUND as int));
            vstd::arithmetic::div_mod::lemma_div_is_ordered(
                sabs(s as int),
                2 * (BOUND as int),
                2,
            );
            vstd::arithmetic::div_mod::lemma_div_multiples_vanish(BOUND as int, 2);
        }
        Fx { v: q as i64 }
    }

    /// Half of the value, truncated toward zero; always representable.
    pub fn half(self) -> (r: Fx)
        ensures
            r@ == sdiv(self@, 2),
    {
        proof {
            use_type_invariant(&self);
        }
        let q: i128 = div_trunc(self.v as i128, 2);
        proof {
            vstd::arithmetic::div_mod::lemma_div_is_ordered(
                sabs(self.v as int),
                BOUND as int,
                2,
            );
            vstd::arithmetic::div_mod::lemma_div_nonincreasing(BOUND as int, 2);
        }
        Fx { v: q as i64 }
    }

    /// Negation; always representable.
    pub fn neg(self) -> (r: Fx)
        ensures
            r@ == -self@,
    {
        proof {
            use_type_invariant(&self);
        }
        Fx { v: -self.v }
    }

    /// Magnitude; always representable.
    pub fn abs_val(self) -> (r: Fx)
        ensures
            r@ == sabs(self@),
    {
        proof {
            use_type_invariant(&self);
        }
        if self.v >= 0 {
            self
        } else {
            Fx { v: -self.v }
        }
    }

    /// Strict order on the underlying reals.
    pub fn lt(self, o: Fx) -> (r: bool)
        ensures
            r == (self@ < o@),
    {
        self.v < o.v
    }

    /// Whether the value is exactly zero.
    pub fn is_zero(self) -> (r: bool)
        ensures
            r == (self@ == 0),
    {
        self.v == 0
    }

    /// Whether the product of two values is strictly positive,
    /// computed exactly (no rounding).
    pub fn prod_pos(self, o: Fx) -> (r: bool)
        ensures
            r == (self@ * o@ > 0),
    {
        let r: bool = (self.v > 0 && o.v > 0) || (self.v < 0 && o.v < 0);
        proof {
            assert((((self.v as int) > 0 && (o.v as int) > 0) || ((self.v as int) < 0 && (
            o.v as int) < 0)) == ((self.v as int) * (o.v as int) > 0)) by (nonlinear_arith);
        }
        r
    }

    /// Whether `(a - b) * (b - c) > d * g`, computed exactly (no rounding):
    /// the bracket-width test of the interval solvers.
    pub fn diff_prod_gt(a: Fx, b: Fx, c: Fx, d: Fx, g: Fx) -> (r: bool)
        ensures
            r == ((a@ - b@) * (b@ - c@) > d@ * g@),
    {
        proof {
            use_type_invariant(&a);
            use_type_invariant(&b);
            use_type_invariant(&c);
            use_type_invariant(&d);
            use_type_invariant(&g);
            assert(-0x4000_0000_0000_0000_0000_0000_0000_0000 < (d.v as int) * (g.v as int)
                < 0x4000_0000_0000_0000_0000_0000_0000_0000) by (nonlinear_arith)
                requires
                    -(BOUND as int) <= d.v as int <= BOUND as int,
                    -(BOUND as int) <= g.v as int <= BOUND as int,
            ;
        }
        let w1: i128 = (a.v as i128) - (b.v as i128);
        let w2: i128 = (b.v as i128) - (c.v as i128);
        let p2: i128 = (d.v as i128) * (g.v as i128);
        let m1: u128 = if w1 >= 0 {
            w1 as u128
        } else {
            (-w1) as u128
        };
        let m2: u128 = if w2 >= 0 {
            w2 as u128
        } else {
            (-w2) as u128
        };
        proof {
            assert((m1 as int) * (m2 as int) < 0x1_0000_0000_0000_0000_0000_0000_0000_0000)
                by (nonlinear_arith)
                requires
                    0 <= m1 as int <= 2 * (BOUND as int),
                    0 <= m2 as int <= 2 * (BOUND as int),
            ;
        }
        let mag1: u128 = m1 * m2;
        let neg1: bool = (w1 < 0) != (w2 < 0);
        proof {
            assert((w1 as int) * (w2 as int) == (if neg1 {
                -((m1 as int) * (m2 as int))
            } else {
                (m1 as int) * (m2 as int)
            })) by (nonlinear_arith)
                requires
                    m1 as int == sabs(w1 as int),
                    m2 as int == sabs(w2 as int),
                    neg1 == ((w1 < 0) != (w2 < 0)),
            ;
        }
        if !neg1 {
            if p2 < 0 {
                true
            } else {
                mag1 > (p2 as u128)
            }
        } else {
            if p2 >= 0 {
                false
            } else {
                mag1 < ((-p2) as u128)
            }
        }
    }

    /// Whether `|self - o| > c`, computed exactly (no rounding).
    pub fn abs_diff_gt(self, o: Fx, c: Fx) -> (r: bool)
        ensures
            r == (sabs(self@ - o@) > c@),
    {
        proof {
            use_type_invariant(&self);
            use_type_invariant(&o);
        }
        let d: i128 = (self.v as i128) - (o.v as i128);
        let ad: i128 = if d >= 0 {
            d
        } else {
            -d
        };
        ad > c.raw() as i128
    }

    /// Whether `|self| > c`, computed exactly.
    pub fn abs_gt(self, c: Fx) -> (r: bool)
        ensures
            r == (sabs(self@) > c@),
    {
        proof {
            use_type_invariant(&self);
        }
        let a: i64 = if self.v >= 0 {
            self.v
        } else {
            -self.v
        };
        a > c.raw()
    }

    /// The integer the value denotes, when it is a whole number of units.
    pub fn int_value(self) -> (r: Option<i64>)
        ensures
            match r {
                Some(k) => self@ == k as int * (SCALE as int) && sabs(k as int) <= BOUND as int
                    / SCALE as int,
                None => self@ % (SCALE as int) != 0,
            },
    {
        proof {
            use_type_invariant(&self);
        }
        let ua: u64 = if self.v >= 0 {
            self.v as u64
        } else {
            (-self.v) as u64
        };
        let rem: u64 = ua % (SCALE as u64);
        if rem == 0 {
            let q: u64 = ua / (SCALE as u64);
            proof {
                vstd::arithmetic::div_mod::lemma_fundamental_div_mod(ua as int, SCALE as int);
                vstd::arithmetic::div_mod::lemma_div_is_ordered_by_denominator(
                    ua as int,
                    SCALE as int,
                    SCALE as int,
                );
            }
            if self.v >= 0 {
                Some(q as i64)
            } else {
                Some(-(q as i64))
            }
        } else {
            proof {
                if self.v as int % (SCALE as int) == 0 {
                    vstd::arithmetic::div_mod::lemma_mod_decreases(ua as nat, SCALE as nat);
                }
            }
            None
        }
    }
}

/// View of an optional fixed-point value.
pub open spec fn opt_view(o: Option<Fx>) -> Option<int> {
    match o {
        Option::Some(f) => Option::Some(f@),
        Option::None => Option::None,
    }
}

/// Relates a fallible executable result to its model.
pub open spec fn opt_matches(r: Option<Fx>, m: Option<int>) -> bool {
    match r {
        Some(f) => m == Some(f@),
        None => m is None,
    }
}

} // verus!
