//! Fixed-point multipliers.
//!
//! A [`Factor`] is a rational number with denominator 1000. Damage
//! multipliers, resistances and ratios are factors, which keeps every rule
//! exact: `0.7`, `0.3` and `0.45` are what they say, not their nearest binary
//! fraction.
use vstd::prelude::*;
use crate::arith::{clamp_i64, clamp_to_i64, div_floor, div_trunc, floor_div, trunc_div};

verus! {

/// Thousandths in one unit.
pub const FACTOR_DENOMINATOR: i64 = 1000;

/// A multiplier in thousandths: `Factor { millis: 500 }` is one half.
#[derive(Clone, Copy, Debug, PartialEq, Eq, Structural)]
pub struct Factor {
    pub millis: i64,
}

/// `floor(amount * millis / 1000)`, over unbounded integers.
pub open spec fn scaled_floor(millis: int, amount: int) -> int {
    floor_div(amount * millis, 1000)
}

/// `amount * millis / 1000` rounded toward zero, over unbounded integers.
pub open spec fn scaled_trunc(millis: int, amount: int) -> int {
    trunc_div(amount * millis, 1000)
}

/// The quotient `num / den` in thousandths, rounded toward zero.
///
/// A zero denominator gives the largest or smallest factor, by the sign of
/// the numerator, and zero for `0 / 0`.
pub open spec fn ratio_millis(num: int, den: int) -> int {
    if den > 0 {
        clamp_i64(trunc_div(1000 * num, den))
    } else if den < 0 {
        clamp_i64(trunc_div(-(1000 * num), -den))
    } else if num > 0 {
        i64::MAX as int
    } else if num < 0 {
        i64::MIN as int
    } else {
        0
    }
}

impl Factor {
    /// The factor `millis / 1000`.
    pub fn from_millis(millis: i64) -> (f: Factor)
        ensures
            f.millis == millis,
    {
        Factor { millis }
    }

    /// The factor `percent / 100`, as near as thousandths in `i64` allow.
    pub fn from_percent(percent: i64) -> (f: Factor)
        ensures
            f.millis == clamp_i64(percent * 10),
    {
        Factor { millis: clamp_to_i64(percent as i128 * 10) }
    }

    /// The factor 1: multiplying by it changes nothing.
    pub fn one() -> (f: Factor)
        ensures
            f.millis == 1000,
    {
        Factor { millis: 1000 }
    }

    /// The factor 0.
    pub fn zero() -> (f: Factor)
        ensures
            f.millis == 0,
    {
        Factor { millis: 0 }
    }

    /// The quotient of two integers as a factor; see [`ratio_millis`].
    pub fn ratio(num: i64, den: i64) -> (f: Factor)
        ensures
            f.millis == ratio_millis(num as int, den as int),
    {
        let n: i128 = 1000 * (num as i128);
        if den > 0 {
            Factor { millis: clamp_to_i64(div_trunc(n, den as i128)) }
        } else if den < 0 {
            Factor { millis: clamp_to_i64(div_trunc(-n, -(den as i128))) }
        } else if num > 0 {
            Factor { millis: i64::MAX }
        } else if num < 0 {
            Factor { millis: i64::MIN }
        } else {
            Factor { millis: 0 }
        }
    }

    /// Thousandths held by this factor.
    pub fn millis(&self) -> (m: i64)
        ensures
            m == self.millis,
    {
        self.millis
    }

    /// Whether this is exactly 1.
    pub fn is_one(&self) -> (b: bool)
        ensures
            b == (self.millis == 1000),
    {
        self.millis == 1000
    }

    /// Whether this is exactly 0.
    pub fn is_zero(&self) -> (b: bool)
        ensures
            b == (self.millis == 0),
    {
        self.millis == 0
    }

    /// `amount` times this factor, rounded down and kept in range.
    pub fn scale_floor(&self, amount: i64) -> (r: i64)
        ensures
            r == clamp_i64(scaled_floor(self.millis as int, amount as int)),
    {
        let product: i128 = wide_product(amount, self.millis);
        clamp_to_i64(div_floor(product, 1000))
    }

    /// `amount` times this factor, rounded toward zero and kept in range.
    pub fn scale_trunc(&self, amount: i64) -> (r: i64)
        ensures
            r == clamp_i64(scaled_trunc(self.millis as int, amount as int)),
    {
        let product: i128 = wide_product(amount, self.millis);
        clamp_to_i64(div_trunc(product, 1000))
    }
}

/// The exact product of two `i64` values.
pub fn wide_product(a: i64, b: i64) -> (p: i128)
    ensures
        p == a * b,
        -0x4000_0000_0000_0000_0000_0000_0000_0000 <= p <= 0x4000_0000_0000_0000_0000_0000_0000_0000,
{
    proof {
        lemma_product_bound(a as int, b as int);
    }
    (a as i128) * (b as i128)
}

/// The product of two values of at most 63 bits has at most 126 bits.
pub proof fn lemma_product_bound(a: int, b: int)
    requires
        -0x8000_0000_0000_0000 <= a <= 0x8000_0000_0000_0000,
        -0x8000_0000_0000_0000 <= b <= 0x8000_0000_0000_0000,
    ensures
        -0x4000_0000_0000_0000_0000_0000_0000_0000 <= a * b <= 0x4000_0000_0000_0000_0000_0000_0000_0000,
{
    let m: int = 0x8000_0000_0000_0000;
    assert(m * m == 0x4000_0000_0000_0000_0000_0000_0000_0000) by (nonlinear_arith)
        requires
            m == 0x8000_0000_0000_0000,
    ;
    assert(-(m * m) <= a * b <= m * m) by (nonlinear_arith)
        requires
            -m <= a <= m,
            -m <= b <= m,
            m >= 0,
    ;
}

} // verus!
