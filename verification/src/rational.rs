//! Exact rational numbers: the carrier for geographic coordinates and for
//! the unit-bearing value types, so that conversions stay exact instead of
//! rounding.

use vstd::prelude::*;

use crate::fields::{Decimal, lemma_pow10_bound, pow10_u64};

verus! {

/// A rational number `num / den`.  Well-formed values keep the denominator
/// at one or more; the sign lives in the numerator.
#[derive(Debug, Clone, Copy, PartialEq, Eq, Structural)]
pub struct Rational {
    pub num: i128,
    pub den: i128,
}

impl Rational {
    /// The denominator is positive.
    pub open spec fn wf(self) -> bool {
        self.den >= 1
    }

    /// Whether two rationals denote the same number: equal cross products.
    pub open spec fn same_value(self, other: Rational) -> bool {
        self.num * other.den == other.num * self.den
    }

    /// The rational denoting the integer `n`.
    pub fn from_integer(n: i64) -> (r: Rational)
        ensures
            r.num == n as int,
            r.den == 1,
            r.wf(),
    {
        Rational { num: n as i128, den: 1 }
    }

    /// Inputs to a conversion stay within this magnitude so that one
    /// multiplication by a conversion fraction fits a 128-bit word.
    pub open spec fn bounded(self) -> bool {
        -10_000_000_000_000_000_000_000_000i128 <= self.num <= 10_000_000_000_000_000_000_000_000i128
            && self.den <= 10_000_000_000_000_000_000_000_000i128
    }

    /// Multiplies by the fraction `p / q`, exactly: the numerator picks up
    /// `p`, the denominator picks up `q`.
    pub fn times_frac(&self, p: u64, q: u64) -> (r: Rational)
        requires
            self.wf(),
            self.bounded(),
            1 <= p <= 4_000_000_000_000u64,
            1 <= q <= 4_000_000_000_000u64,
        ensures
            r.num == self.num * p,
            r.den == self.den * q,
            r.wf(),
    {
        proof {
            lemma_bounded_product(self.num as int, p as int);
            lemma_bounded_product(self.den as int, q as int);
            assert(self.den * q >= 1) by (nonlinear_arith)
                requires
                    self.den >= 1,
                    q >= 1,
            ;
        }
        Rational { num: self.num * (p as i128), den: self.den * (q as i128) }
    }

    /// The rational a parsed decimal field denotes.
    pub fn from_decimal(d: Decimal) -> (r: Rational)
        requires
            d.wf(),
        ensures
            r.num == d.num(),
            r.den == d.den(),
            r.wf(),
            r.bounded(),
    {
        let den_u: u64 = pow10_u64(d.scale);
        proof {
            lemma_pow10_bound(d.scale as nat);
        }
        let num: i128 = if d.negative {
            -(d.mantissa as i128)
        } else {
            d.mantissa as i128
        };
        Rational { num, den: den_u as i128 }
    }

    /// Numerator.
    pub fn numerator(&self) -> (r: i128)
        ensures
            r == self.num,
    {
        self.num
    }

    /// Denominator.
    pub fn denominator(&self) -> (r: i128)
        ensures
            r == self.den,
    {
        self.den
    }
}

/// A bounded value times a conversion factor stays far inside 128 bits.
proof fn lemma_bounded_product(a: int, b: int)
    requires
        -10_000_000_000_000_000_000_000_000 <= a <= 10_000_000_000_000_000_000_000_000,
        1 <= b <= 4_000_000_000_000,
    ensures
        -170_141_183_460_469_231_731_687_303_715_884_105_727 <= a * b
            <= 170_141_183_460_469_231_731_687_303_715_884_105_727,
{
    assert(a * b <= 10_000_000_000_000_000_000_000_000 * 4_000_000_000_000 && a * b
        >= -10_000_000_000_000_000_000_000_000 * 4_000_000_000_000) by (nonlinear_arith)
        requires
            -10_000_000_000_000_000_000_000_000 <= a <= 10_000_000_000_000_000_000_000_000,
            1 <= b <= 4_000_000_000_000,
    ;
}

} // verus!
