//! Fixed-point scalars: a quantity is a signed count of millionths of a unit.
//!
//! Products and quotients round toward zero. The rounding is part of the
//! model: every contract in this crate states results in terms of `mul_raw`
//! and `div_raw`, so the numbers a caller sees are pinned exactly.

use vstd::prelude::*;

verus! {

/// Raw steps per unit: one unit is a million raw steps.
pub const SCALE: i64 = 1_000_000;

/// Largest raw magnitude the arithmetic here accepts. Keeping `i64::MIN`
/// out makes every value safely negatable.
pub open spec fn fits_i64(x: int) -> bool {
    -9223372036854775807 <= x <= 9223372036854775807
}

/// A fixed-point scalar: `raw` counts millionths of a unit.
#[derive(Clone, Copy, PartialEq, Eq, Structural, Debug)]
pub struct Fx {
    pub raw: i64,
}

/// Division rounding toward zero (the rounding of Rust's `/`), defined for
/// a positive divisor. Spec-level `/` is Euclidean, hence floor for `d > 0`,
/// so the negative case negates the quotient of magnitudes.
pub open spec fn tdiv(p: int, d: int) -> int
    recommends
        d > 0,
{
    if p >= 0 {
        p / d
    } else {
        -((-p) / d)
    }
}

/// Raw value of the product of two scalars.
pub open spec fn mul_raw(a: int, b: int) -> int {
    tdiv(a * b, SCALE as int)
}

/// Raw value of the quotient of two scalars, for a positive divisor.
pub open spec fn div_raw(a: int, b: int) -> int
    recommends
        b > 0,
{
    tdiv(a * (SCALE as int), b)
}

/// A product of two `i64` values stays well inside `i128`.
proof fn lemma_i64_prod_in_i128(a: int, b: int)
    requires
        -9223372036854775808 <= a <= 9223372036854775807,
        -9223372036854775808 <= b <= 9223372036854775807,
    ensures
        -85070591730234615865843651857942052864 <= a * b
            <= 85070591730234615865843651857942052864,
{
    assert(-85070591730234615865843651857942052864 <= a * b
        <= 85070591730234615865843651857942052864) by (nonlinear_arith)
        requires
            -9223372036854775808 <= a <= 9223372036854775807,
            -9223372036854775808 <= b <= 9223372036854775807,
    ;
}

/// The magnitude of a rounded product is bounded by the rounded product of
/// the factors' bounds.
pub proof fn lemma_mul_raw_bound(a: int, b: int, ba: int, bb: int)
    requires
        -ba <= a <= ba,
        -bb <= b <= bb,
    ensures
        -tdiv(ba * bb, SCALE as int) <= mul_raw(a, b) <= tdiv(ba * bb, SCALE as int),
{
    assert(-(ba * bb) <= a * b <= ba * bb) by (nonlinear_arith)
        requires
            -ba <= a <= ba,
            -bb <= b <= bb,
    ;
    let p = a * b;
    let top = ba * bb;
    assert(0 <= top);
    if p >= 0 {
        vstd::arithmetic::div_mod::lemma_div_is_ordered(p, top, SCALE as int);
        vstd::arithmetic::div_mod::lemma_div_pos_is_pos(p, SCALE as int);
    } else {
        vstd::arithmetic::div_mod::lemma_div_is_ordered(-p, top, SCALE as int);
        vstd::arithmetic::div_mod::lemma_div_pos_is_pos(-p, SCALE as int);
    }
}

/// The magnitude of a rounded quotient, for a divisor no smaller than `bmin`.
pub proof fn lemma_div_raw_bound(a: int, b: int, ba: int, bmin: int)
    requires
        -ba <= a <= ba,
        0 < bmin <= b,
    ensures
        -tdiv(ba * (SCALE as int), bmin) <= div_raw(a, b) <= tdiv(ba * (SCALE as int), bmin),
{
    assert(-(ba * (SCALE as int)) <= a * (SCALE as int) <= ba * (SCALE as int))
        by (nonlinear_arith)
        requires
            -ba <= a <= ba,
    ;
    let p = a * (SCALE as int);
    let top = ba * (SCALE as int);
    if p >= 0 {
        vstd::arithmetic::div_mod::lemma_div_is_ordered(p, top, b);
        vstd::arithmetic::div_mod::lemma_div_pos_is_pos(p, b);
        vstd::arithmetic::div_mod::lemma_div_is_ordered_by_denominator(top, bmin, b);
    } else {
        vstd::arithmetic::div_mod::lemma_div_is_ordered(-p, top, b);
        vstd::arithmetic::div_mod::lemma_div_pos_is_pos(-p, b);
        vstd::arithmetic::div_mod::lemma_div_is_ordered_by_denominator(top, bmin, b);
    }
}

/// A rounded product sits within one raw step of the exact one: scaling it
/// back up misses `a * b` by less than `SCALE`.
pub proof fn lemma_mul_raw_rounding(a: int, b: int)
    ensures
        -(SCALE as int) < mul_raw(a, b) * (SCALE as int) - a * b < SCALE as int,
{
    let s = SCALE as int;
    let p = a * b;
    if p >= 0 {
        vstd::arithmetic::div_mod::lemma_fundamental_div_mod(p, s);
        vstd::arithmetic::div_mod::lemma_mod_bound(p, s);
        assert((p / s) * s == s * (p / s)) by (nonlinear_arith);
    } else {
        vstd::arithmetic::div_mod::lemma_fundamental_div_mod(-p, s);
        vstd::arithmetic::div_mod::lemma_mod_bound(-p, s);
        assert((-((-p) / s)) * s == -(s * ((-p) / s))) by (nonlinear_arith);
    }
}

/// Rounding toward zero is symmetric: negating a factor negates the product.
pub proof fn lemma_mul_raw_neg_left(a: int, b: int)
    ensures
        mul_raw(-a, b) == -mul_raw(a, b),
{
    assert((-a) * b == -(a * b)) by (nonlinear_arith);
}

/// Scaling by a whole scalar is exact: multiplying by `k` units yields
/// exactly `k` times the raw value.
pub proof fn lemma_mul_raw_whole(a: int, k: int)
    requires
        fits_i64(a * k),
    ensures
        mul_raw(a, k * (SCALE as int)) == a * k,
{
    let s = SCALE as int;
    assert(a * (k * s) == (a * k) * s) by (nonlinear_arith);
    if a * k >= 0 {
        assert((a * k) * s >= 0) by (nonlinear_arith)
            requires
                a * k >= 0,
                s > 0,
        ;
        vstd::arithmetic::div_mod::lemma_div_multiples_vanish(a * k, s);
    } else {
        assert((a * k) * s < 0) by (nonlinear_arith)
            requires
                a * k < 0,
                s > 0,
        ;
        assert(-((a * k) * s) == (-(a * k)) * s) by (nonlinear_arith);
        vstd::arithmetic::div_mod::lemma_div_multiples_vanish(-(a * k), s);
    }
}

impl Fx {
    /// The raw count as a mathematical integer.
    pub open spec fn v(self) -> int {
        self.raw as int
    }

    /// A scalar within the negatable range.
    pub open spec fn ok(self) -> bool {
        fits_i64(self.v())
    }

    pub fn from_raw(raw: i64) -> (r: Fx)
        ensures
            r.raw == raw,
    {
        Fx { raw }
    }

    pub fn zero() -> (r: Fx)
        ensures
            r.v() == 0,
    {
        Fx { raw: 0 }
    }

    pub fn one() -> (r: Fx)
        ensures
            r.v() == SCALE as int,
    {
        Fx { raw: SCALE }
    }

    pub fn add(self, o: Fx) -> (r: Fx)
        requires
            fits_i64(self.v() + o.v()),
        ensures
            r.v() == self.v() + o.v(),
    {
        Fx { raw: self.raw + o.raw }
    }

    pub fn sub(self, o: Fx) -> (r: Fx)
        requires
            fits_i64(self.v() - o.v()),
        ensures
            r.v() == self.v() - o.v(),
    {
        Fx { raw: self.raw - o.raw }
    }

    pub fn neg(self) -> (r: Fx)
        requires
            self.ok(),
        ensures
            r.v() == -self.v(),
    {
        Fx { raw: -self.raw }
    }

    /// Fixed-point product, rounded toward zero.
    pub fn mul(self, o: Fx) -> (r: Fx)
        requires
            fits_i64(mul_raw(self.v(), o.v())),
        ensures
            r.v() == mul_raw(self.v(), o.v()),
    {
        proof {
            lemma_i64_prod_in_i128(self.v(), o.v());
        }
        let p: i128 = (self.raw as i128) * (o.raw as i128);
        if p >= 0 {
            let q: u128 = (p as u128) / (SCALE as u128);
            proof {
                vstd::arithmetic::div_mod::lemma_div_pos_is_pos(p as int, SCALE as int);
                vstd::arithmetic::div_mod::lemma_div_is_ordered(p as int,
                    85070591730234615865843651857942052864, SCALE as int);
            }
            Fx { raw: q as i64 }
        } else {
            let m: u128 = (-p) as u128;
            let q: u128 = m / (SCALE as u128);
            proof {
                vstd::arithmetic::div_mod::lemma_div_pos_is_pos(m as int, SCALE as int);
                vstd::arithmetic::div_mod::lemma_div_is_ordered(m as int,
                    85070591730234615865843651857942052864, SCALE as int);
            }
            let qi: i64 = q as i64;
            Fx { raw: -qi }
        }
    }

    /// Fixed-point quotient, rounded toward zero; the divisor must be
    /// strictly positive.
    pub fn div(self, o: Fx) -> (r: Fx)
        requires
            o.v() > 0,
            fits_i64(div_raw(self.v(), o.v())),
        ensures
            r.v() == div_raw(self.v(), o.v()),
    {
        proof {
            lemma_i64_prod_in_i128(self.v(), SCALE as int);
        }
        let p: i128 = (self.raw as i128) * (SCALE as i128);
        let d: u128 = o.raw as u128;
        if p >= 0 {
            let q: u128 = (p as u128) / d;
            proof {
                vstd::arithmetic::div_mod::lemma_div_pos_is_pos(p as int, o.v());
            }
            Fx { raw: q as i64 }
        } else {
            let m: u128 = (-p) as u128;
            let q: u128 = m / d;
            proof {
                vstd::arithmetic::div_mod::lemma_div_pos_is_pos(m as int, o.v());
            }
            let qi: i64 = q as i64;
            Fx { raw: -qi }
        }
    }

    /// Clamp into `[lo, hi]`.
    pub fn clamp_to(self, lo: Fx, hi: Fx) -> (r: Fx)
        requires
            lo.v() <= hi.v(),
        ensures
            r.v() == clamp_raw(self.v(), lo.v(), hi.v()),
    {
        if self.raw < lo.raw {
            lo
        } else if self.raw > hi.raw {
            hi
        } else {
            self
        }
    }
}

/// The clamped value: `lo` below the range, `hi` above it, `x` inside it.
pub open spec fn clamp_raw(x: int, lo: int, hi: int) -> int {
    if x < lo {
        lo
    } else if x > hi {
        hi
    } else {
        x
    }
}

} // verus!
