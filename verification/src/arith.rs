//! Integer helpers shared by the game rules.
//!
//! All game quantities are `i64`. Rules are stated over unbounded integers and
//! the result is brought back into range by [`clamp_i64`], so no rule can
//! overflow and none needs a precondition on the size of its inputs.
use vstd::prelude::*;

verus! {

/// The nearest `i64` to `x`.
pub open spec fn clamp_i64(x: int) -> int {
    if x > i64::MAX {
        i64::MAX as int
    } else if x < i64::MIN {
        i64::MIN as int
    } else {
        x
    }
}

/// Division rounding toward negative infinity, for a positive divisor.
pub open spec fn floor_div(x: int, d: int) -> int
    recommends
        d > 0,
{
    x / d
}

/// Division rounding toward zero, for a positive divisor.
pub open spec fn trunc_div(x: int, d: int) -> int
    recommends
        d > 0,
{
    if x >= 0 {
        x / d
    } else {
        -((-x) / d)
    }
}

/// The smaller of two integers.
pub open spec fn min_int(a: int, b: int) -> int {
    if a <= b {
        a
    } else {
        b
    }
}

/// The larger of two integers.
pub open spec fn max_int(a: int, b: int) -> int {
    if a >= b {
        a
    } else {
        b
    }
}

/// Brings a wide intermediate result back into `i64`.
pub fn clamp_to_i64(x: i128) -> (r: i64)
    ensures
        r == clamp_i64(x as int),
{
    if x > i64::MAX as i128 {
        i64::MAX
    } else if x < i64::MIN as i128 {
        i64::MIN
    } else {
        x as i64
    }
}

/// `a + b`, kept in range.
pub fn sat_add(a: i64, b: i64) -> (r: i64)
    ensures
        r == clamp_i64(a + b),
{
    clamp_to_i64(a as i128 + b as i128)
}

/// `a - b`, kept in range.
pub fn sat_sub(a: i64, b: i64) -> (r: i64)
    ensures
        r == clamp_i64(a - b),
{
    clamp_to_i64(a as i128 - b as i128)
}

/// Floor division of a wide value by a positive divisor.
pub fn div_floor(x: i128, d: i128) -> (r: i128)
    requires
        d > 0,
    ensures
        r == floor_div(x as int, d as int),
{
    if x >= 0 {
        x / d
    } else {
        // x < 0: floor(x / d) = -ceil(-x / d) = -((-x - 1) / d + 1)
        let m: i128 = -(x + 1);
        let q: i128 = m / d;
        proof {
            lemma_floor_div_negative(x as int, d as int);
        }
        -q - 1
    }
}

/// Division of a wide value by a positive divisor, rounding toward zero.
pub fn div_trunc(x: i128, d: i128) -> (r: i128)
    requires
        d > 0,
        x > i128::MIN,
    ensures
        r == trunc_div(x as int, d as int),
{
    if x >= 0 {
        x / d
    } else {
        let m: i128 = -x;
        -(m / d)
    }
}

/// For negative `x`, the floor quotient is one below the negated quotient of
/// `-(x + 1)`.
pub proof fn lemma_floor_div_negative(x: int, d: int)
    requires
        x < 0,
        d > 0,
    ensures
        x / d == -((-(x + 1)) / d) - 1,
{
    let m = -(x + 1);
    let q = m / d;
    let r = m % d;
    assert(m == d * q + r && 0 <= r < d) by {
        vstd::arithmetic::div_mod::lemma_fundamental_div_mod(m, d);
        vstd::arithmetic::div_mod::lemma_mod_bound(m, d);
    }
    // x = -m - 1 = d * (-q - 1) + (d - 1 - r)
    assert(x == d * (-q - 1) + (d - 1 - r)) by (nonlinear_arith)
        requires
            m == d * q + r,
            x == -m - 1,
    ;
    vstd::arithmetic::div_mod::lemma_fundamental_div_mod_converse(x, d, -q - 1, d - 1 - r);
}

} // verus!
