//! Fixed-point decimal numbers with six fractional digits.
//!
//! Prices, quantities, amounts of money and percentages are all held as a
//! signed count of millionths. Every operation states its result exactly.
//! A quotient that is no whole count of millionths is rounded, toward zero
//! unless the operation says otherwise, and a result outside the
//! representable range is replaced by the nearest bound. Reading and writing
//! of decimals is in the module `numeral`.

use vstd::prelude::*;

verus! {

/// Number of units in one whole: a `Decimal` counts millionths.
pub const SCALE: i64 = 1_000_000;

/// A signed decimal number, held as a count of millionths.
#[derive(Clone, Copy, Debug, PartialEq, Eq, Structural)]
pub struct Decimal {
    pub micros: i64,
}

impl View for Decimal {
    type V = int;

    /// The number of millionths.
    open spec fn view(&self) -> int {
        self.micros as int
    }
}

/// The representable count nearest to `x`.
pub open spec fn saturate(x: int) -> int {
    if x < i64::MIN {
        i64::MIN as int
    } else if x > i64::MAX {
        i64::MAX as int
    } else {
        x
    }
}

/// The absolute value of `x`.
pub open spec fn magnitude(x: int) -> int {
    if x < 0 {
        -x
    } else {
        x
    }
}

/// `n / d` rounded toward zero, for `d != 0`.
pub open spec fn truncated_quotient(n: int, d: int) -> int {
    if (n < 0) == (d < 0) {
        magnitude(n) / magnitude(d)
    } else {
        -(magnitude(n) / magnitude(d))
    }
}

/// `n / d` rounded up to the least whole number that is not below it, for
/// `d != 0`.
pub open spec fn raised_quotient(n: int, d: int) -> int {
    if (n < 0) == (d < 0) {
        (magnitude(n) + magnitude(d) - 1) / magnitude(d)
    } else {
        -(magnitude(n) / magnitude(d))
    }
}

/// `n / d` rounded away from zero, for `d != 0`.
pub open spec fn outward_quotient(n: int, d: int) -> int {
    if (n < 0) == (d < 0) {
        (magnitude(n) + magnitude(d) - 1) / magnitude(d)
    } else {
        -((magnitude(n) + magnitude(d) - 1) / magnitude(d))
    }
}

/// Millionths of `a + b`.
pub open spec fn sum(a: int, b: int) -> int {
    saturate(a + b)
}

/// Millionths of `a - b`.
pub open spec fn difference(a: int, b: int) -> int {
    saturate(a - b)
}

/// Millionths of `a * b`, both given in millionths.
pub open spec fn product(a: int, b: int) -> int {
    saturate(truncated_quotient(a * b, SCALE as int))
}

/// Millionths of `a / b`, both given in millionths, for `b != 0`.
pub open spec fn ratio(a: int, b: int) -> int {
    saturate(truncated_quotient(a * SCALE, b))
}

/// Millionths of `a / b`, rounded up, both given in millionths, for
/// `b != 0`.
pub open spec fn ratio_up(a: int, b: int) -> int {
    saturate(raised_quotient(a * SCALE, b))
}

/// Millionths of `a / b * 100`, rounded away from zero, both given in
/// millionths, for `b != 0`. It is zero only where `a` is.
pub open spec fn percentage_outward(a: int, b: int) -> int {
    saturate(outward_quotient(a * 100 * SCALE, b))
}

/// Millionths of `a / b * 100`, both given in millionths, for `b != 0`.
pub open spec fn percentage(a: int, b: int) -> int {
    saturate(truncated_quotient(a * 100 * SCALE, b))
}

/// Division of two non-negative numbers, rounded toward zero.
fn divide_magnitudes(n: i128, d: i128) -> (q: i128)
    requires
        n >= 0,
        d > 0,
    ensures
        q == n as int / d as int,
        0 <= q <= n,
{
    proof {
        vstd::arithmetic::div_mod::lemma_div_pos_is_pos(n as int, d as int);
        vstd::arithmetic::div_mod::lemma_div_is_ordered_by_denominator(n as int, 1, d as int);
    }
    n / d
}

/// Division rounded toward zero.
fn divide_toward_zero(n: i128, d: i128) -> (q: i128)
    requires
        d != 0,
        n > i128::MIN,
        d > i128::MIN,
    ensures
        q == truncated_quotient(n as int, d as int),
{
    if n >= 0 {
        if d > 0 {
            divide_magnitudes(n, d)
        } else {
            -divide_magnitudes(n, -d)
        }
    } else {
        if d > 0 {
            -divide_magnitudes(-n, d)
        } else {
            divide_magnitudes(-n, -d)
        }
    }
}

/// The magnitude of the quotient of two numbers, rounded up.
fn divide_magnitudes_up(n: i128, d: i128) -> (q: i128)
    requires
        -0x1_0000_0000_0000_0000_0000_0000 < n < 0x1_0000_0000_0000_0000_0000_0000,
        -0x1_0000_0000_0000_0000_0000_0000 < d < 0x1_0000_0000_0000_0000_0000_0000,
        d != 0,
    ensures
        q == (magnitude(n as int) + magnitude(d as int) - 1) / magnitude(d as int),
        q >= 0,
{
    let size: i128 = if n < 0 {
        -n
    } else {
        n
    };
    let by: i128 = if d < 0 {
        -d
    } else {
        d
    };
    divide_magnitudes(size + by - 1, by)
}

/// `n / d` rounded up to the least whole number that is not below it.
pub fn divide_up(n: i128, d: i128) -> (q: i128)
    requires
        -0x1_0000_0000_0000_0000_0000_0000 < n < 0x1_0000_0000_0000_0000_0000_0000,
        -0x1_0000_0000_0000_0000_0000_0000 < d < 0x1_0000_0000_0000_0000_0000_0000,
        d != 0,
    ensures
        q == raised_quotient(n as int, d as int),
{
    if (n < 0) == (d < 0) {
        divide_magnitudes_up(n, d)
    } else {
        divide_toward_zero(n, d)
    }
}

/// Division rounded away from zero.
fn divide_outward(n: i128, d: i128) -> (q: i128)
    requires
        -0x1_0000_0000_0000_0000_0000_0000 < n < 0x1_0000_0000_0000_0000_0000_0000,
        -0x1_0000_0000_0000_0000_0000_0000 < d < 0x1_0000_0000_0000_0000_0000_0000,
        d != 0,
    ensures
        q == outward_quotient(n as int, d as int),
{
    if (n < 0) == (d < 0) {
        divide_magnitudes_up(n, d)
    } else {
        -divide_magnitudes_up(n, d)
    }
}

/// Brings a wide count into the representable range.
fn clamp(x: i128) -> (d: Decimal)
    ensures
        d@ == saturate(x as int),
{
    if x < i64::MIN as i128 {
        Decimal { micros: i64::MIN }
    } else if x > i64::MAX as i128 {
        Decimal { micros: i64::MAX }
    } else {
        Decimal { micros: x as i64 }
    }
}

impl Decimal {
    /// The number zero.
    pub fn zero() -> (d: Decimal)
        ensures
            d@ == 0,
    {
        Decimal { micros: 0 }
    }

    /// The decimal that counts `micros` millionths.
    pub fn from_micros(micros: i64) -> (d: Decimal)
        ensures
            d@ == micros,
    {
        Decimal { micros }
    }

    /// The whole number `units`.
    pub fn from_units(units: i32) -> (d: Decimal)
        ensures
            d@ == units * SCALE,
    {
        Decimal { micros: units as i64 * SCALE }
    }

    /// `self + other`.
    pub fn plus(self, other: Decimal) -> (d: Decimal)
        ensures
            d@ == sum(self@, other@),
    {
        clamp(self.micros as i128 + other.micros as i128)
    }

    /// `self - other`.
    pub fn minus(self, other: Decimal) -> (d: Decimal)
        ensures
            d@ == difference(self@, other@),
    {
        clamp(self.micros as i128 - other.micros as i128)
    }

    /// `self * other`, rounded toward zero.
    pub fn times(self, other: Decimal) -> (d: Decimal)
        ensures
            d@ == product(self@, other@),
    {
        let a: i128 = self.micros as i128;
        let b: i128 = other.micros as i128;
        assert(-0x4000_0000_0000_0000_0000_0000_0000_0000 <= a * b
            <= 0x4000_0000_0000_0000_0000_0000_0000_0000) by (nonlinear_arith)
            requires
                -0x8000_0000_0000_0000 <= a <= 0x8000_0000_0000_0000,
                -0x8000_0000_0000_0000 <= b <= 0x8000_0000_0000_0000,
        ;
        clamp(divide_toward_zero(a * b, 1_000_000))
    }

    /// `self / other`, rounded toward zero.
    pub fn divided_by(self, other: Decimal) -> (d: Decimal)
        requires
            other@ != 0,
        ensures
            d@ == ratio(self@, other@),
    {
        clamp(divide_toward_zero(self.micros as i128 * 1_000_000, other.micros as i128))
    }

    /// `self / other`, rounded up.
    pub fn divided_up_by(self, other: Decimal) -> (d: Decimal)
        requires
            other@ != 0,
        ensures
            d@ == ratio_up(self@, other@),
    {
        clamp(divide_up(self.micros as i128 * 1_000_000, other.micros as i128))
    }

    /// `self / other * 100`, rounded away from zero: the result is zero only
    /// where `self` is.
    pub fn percent_outward_of(self, other: Decimal) -> (d: Decimal)
        requires
            other@ != 0,
        ensures
            d@ == percentage_outward(self@, other@),
    {
        clamp(divide_outward(self.micros as i128 * 100_000_000, other.micros as i128))
    }

    /// `self / other * 100`, rounded toward zero.
    pub fn percent_of(self, other: Decimal) -> (d: Decimal)
        requires
            other@ != 0,
        ensures
            d@ == percentage(self@, other@),
    {
        clamp(divide_toward_zero(self.micros as i128 * 100_000_000, other.micros as i128))
    }
}

} // verus!
