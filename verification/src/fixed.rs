//! Signed fixed-point scalars.
//!
//! A real quantity `q` is carried as the integer `q * FX_ONE` rounded toward
//! zero, so contracts state exact integer facts about every arithmetic step.

use vstd::prelude::*;
use vstd::arithmetic::div_mod::{lemma_div_is_ordered, lemma_div_multiples_vanish};

verus! {

/// Number of fixed-point ticks in one real unit.
pub const FX_ONE: i64 = 65536;

/// Half of one unit: the offset used by the planar texture projection and by
/// the light placement.
pub const FX_HALF: i64 = 32768;

/// Magnitude ceiling for a raw mesh coordinate, chosen so that
/// `coordinate * FX_ONE` can never overflow an `i64` during normalization.
pub const FX_COORD_MAX: i64 = 0x4000_0000_0000;

/// Quotient rounded toward zero, the rounding hardware division performs.
pub open spec fn trunc_div(a: int, b: int) -> int {
    if a >= 0 {
        a / b
    } else {
        -((-a) / b)
    }
}

/// Fixed-point product of `a` and `b`.
pub open spec fn fx_mul(a: int, b: int) -> int {
    trunc_div(a * b, FX_ONE as int)
}

/// Fixed-point quotient of `a` by `b`.
pub open spec fn fx_div(a: int, b: int) -> int {
    trunc_div(a * (FX_ONE as int), b)
}

/// Magnitude of `a`.
pub open spec fn fx_abs(a: int) -> int {
    if a >= 0 {
        a
    } else {
        -a
    }
}

/// Larger of `a` and `b`.
pub open spec fn fx_max(a: int, b: int) -> int {
    if a >= b {
        a
    } else {
        b
    }
}

/// Divide a nonnegative value by a positive divisor.
fn div_nonneg(a: i64, b: i64) -> (r: i64)
    requires
        0 <= a,
        0 < b,
    ensures
        r == a as int / b as int,
{
    a / b
}

/// Truncating division of a possibly negative value by a positive divisor.
pub fn trunc_div_i64(a: i64, b: i64) -> (r: i64)
    requires
        0 < b,
        a != i64::MIN,
    ensures
        r == trunc_div(a as int, b as int),
{
    if a >= 0 {
        proof {
            lemma_div_is_ordered(a as int, a as int, b as int);
            vstd::arithmetic::div_mod::lemma_div_pos_is_pos(a as int, b as int);
            vstd::arithmetic::div_mod::lemma_div_nonincreasing(a as int, b as int);
        }
        div_nonneg(a, b)
    } else {
        let m = -a;
        proof {
            vstd::arithmetic::div_mod::lemma_div_pos_is_pos(m as int, b as int);
            vstd::arithmetic::div_mod::lemma_div_nonincreasing(m as int, b as int);
        }
        let q = div_nonneg(m, b);
        -q
    }
}

/// Fixed-point multiply; the product must fit the working width.
pub fn fxmul(a: i64, b: i64) -> (r: i64)
    requires
        -0x4000_0000_0000_0000 <= a as int * b as int <= 0x4000_0000_0000_0000,
    ensures
        r == fx_mul(a as int, b as int),
{
    let p: i64 = a * b;
    trunc_div_i64(p, FX_ONE)
}

/// Fixed-point divide by a positive divisor; the scaled dividend must fit the
/// working width.
pub fn fxdiv(a: i64, b: i64) -> (r: i64)
    requires
        0 < b,
        -0x4000_0000_0000 <= a <= 0x4000_0000_0000,
    ensures
        r == fx_div(a as int, b as int),
{
    let p: i64 = a * FX_ONE;
    trunc_div_i64(p, b)
}

/// Magnitude of a fixed-point value.
pub fn fxabs(a: i64) -> (r: i64)
    requires
        a != i64::MIN,
    ensures
        r == fx_abs(a as int),
{
    if a >= 0 {
        a
    } else {
        -a
    }
}

/// Larger of two fixed-point values.
pub fn fxmax(a: i64, b: i64) -> (r: i64)
    ensures
        r == fx_max(a as int, b as int),
{
    if a >= b {
        a
    } else {
        b
    }
}

/// A truncating quotient never exceeds the scaled bound of its dividend:
/// `|a| <= m` gives `|trunc_div(a, b)| <= m / b`.
pub proof fn lemma_trunc_div_bounded(a: int, m: int, b: int)
    requires
        0 < b,
        0 <= m,
        -m <= a <= m,
    ensures
        -(m / b) <= trunc_div(a, b) <= m / b,
{
    if a >= 0 {
        lemma_div_is_ordered(a, m, b);
        vstd::arithmetic::div_mod::lemma_div_pos_is_pos(a, b);
    } else {
        lemma_div_is_ordered(-a, m, b);
        vstd::arithmetic::div_mod::lemma_div_pos_is_pos(-a, b);
    }
}

/// Scaling a coordinate bounded by `m` into units of `m` lands in
/// `[-FX_ONE, FX_ONE]`.
pub proof fn lemma_fx_div_unit_bound(c: int, m: int)
    requires
        FX_ONE <= m,
        -m <= c <= m,
    ensures
        -(FX_ONE as int) <= fx_div(c, m) <= FX_ONE as int,
{
    lemma_div_multiples_vanish(FX_ONE as int, m);
    assert(m * (FX_ONE as int) == (FX_ONE as int) * m) by (nonlinear_arith);
    lemma_trunc_div_bounded(c * (FX_ONE as int), m * (FX_ONE as int), m);
    assert(-(m * (FX_ONE as int)) <= c * (FX_ONE as int) <= m * (FX_ONE as int))
        by (nonlinear_arith)
        requires
            -m <= c <= m,
            0 < m;
}

/// Dividing by a unit denominator changes nothing: `fx_div(c, FX_ONE) == c`.
pub proof fn lemma_fx_div_by_one(c: int)
    ensures
        fx_div(c, FX_ONE as int) == c,
{
    if c >= 0 {
        vstd::arithmetic::div_mod::lemma_div_by_multiple(c, FX_ONE as int);
    } else {
        vstd::arithmetic::div_mod::lemma_div_by_multiple(-c, FX_ONE as int);
        assert(-(c * (FX_ONE as int)) == (-c) * (FX_ONE as int)) by (nonlinear_arith);
    }
}

/// A unit factor is the fixed-point multiplicative identity.
pub proof fn lemma_fx_mul_one(a: int)
    ensures
        fx_mul(a, FX_ONE as int) == a,
        fx_mul(FX_ONE as int, a) == a,
{
    assert(a * (FX_ONE as int) == (FX_ONE as int) * a) by (nonlinear_arith);
    lemma_fx_div_by_one(a);
}

/// A zero factor annihilates a fixed-point product.
pub proof fn lemma_fx_mul_zero(a: int)
    ensures
        fx_mul(a, 0) == 0,
        fx_mul(0, a) == 0,
{
    assert(a * 0 == 0) by (nonlinear_arith);
    assert(0 * a == 0) by (nonlinear_arith);
}

} // verus!
