//! Fixed-point fractions and the integer arithmetic shared by the engine.
//!
//! Chances, multipliers and resistances are held in basis points: `10_000`
//! stands for one whole, `500` for five percent.

use vstd::prelude::*;

verus! {

/// Basis points in one whole.
pub const SCALE: i32 = 10_000;

/// `x` limited to the range from `lo` to `hi`.
pub open spec fn clamp(x: int, lo: int, hi: int) -> int {
    if x < lo {
        lo
    } else if x > hi {
        hi
    } else {
        x
    }
}

/// `x` limited to what an `i32` holds.
pub open spec fn clamp_i32(x: int) -> int {
    clamp(x, i32::MIN as int, i32::MAX as int)
}

/// The sum of `a` and `b`, limited to what an `i32` holds.
pub open spec fn sat_add(a: int, b: int) -> int {
    clamp_i32(a + b)
}

/// `x / d` rounded to the nearest integer, halves away from zero (`d > 0`).
pub open spec fn round_div(x: int, d: int) -> int {
    if x >= 0 {
        (x + d / 2) / d
    } else {
        -((-x + d / 2) / d)
    }
}

/// `value` basis points of `amount`, rounded to the nearest integer and
/// limited to what an `i32` holds.
pub open spec fn portion(amount: int, value: int) -> int {
    clamp_i32(round_div(amount * value, SCALE as int))
}

/// A roll as it counts: one at or beyond `SCALE` counts as the highest roll
/// below it.
pub open spec fn bounded_roll(roll: int) -> int {
    if roll >= SCALE {
        SCALE as int - 1
    } else {
        roll
    }
}

/// A roll as it counts.
pub fn bound_roll(roll: u32) -> (r: u32)
    ensures
        r == bounded_roll(roll as int),
        r < SCALE,
{
    if roll >= 10_000 {
        9_999
    } else {
        roll
    }
}

/// A fraction in basis points. It may be negative or exceed one whole.
#[derive(Debug, Clone, Copy, PartialEq, Eq, Hash, Structural)]
pub struct Ratio(pub i32);

impl Ratio {
    pub fn new(basis_points: i32) -> (r: Self)
        ensures
            r.0 == basis_points,
    {
        Self(basis_points)
    }

    pub fn value(&self) -> (r: i32)
        ensures
            r == self.0,
    {
        self.0
    }

    /// No part at all.
    pub fn zero() -> (r: Self)
        ensures
            r.0 == 0,
    {
        Self(0)
    }

    /// One whole.
    pub fn one() -> (r: Self)
        ensures
            r.0 == SCALE,
    {
        Self(SCALE)
    }

    /// The fraction limited to the range from nothing to one whole.
    pub open spec fn unit(self) -> int {
        clamp(self.0 as int, 0, SCALE as int)
    }

    /// The fraction limited to the range from nothing to one whole.
    pub fn clamp_unit(&self) -> (r: i32)
        ensures
            r == self.unit(),
            0 <= r <= SCALE,
    {
        if self.0 < 0 {
            0
        } else if self.0 > SCALE {
            SCALE
        } else {
            self.0
        }
    }

    /// The sum of two fractions, limited to what the type holds.
    pub fn saturating_add(self, other: Ratio) -> (r: Ratio)
        ensures
            r.0 == sat_add(self.0 as int, other.0 as int),
    {
        Ratio(add_i32(self.0, other.0))
    }
}

/// The sum of `a` and `b`, limited to what an `i32` holds.
pub fn add_i32(a: i32, b: i32) -> (r: i32)
    ensures
        r == sat_add(a as int, b as int),
{
    let sum: i64 = a as i64 + b as i64;
    narrow_i32(sum)
}

/// `x` limited to what an `i32` holds.
pub fn narrow_i32(x: i64) -> (r: i32)
    ensures
        r == clamp_i32(x as int),
{
    if x < i32::MIN as i64 {
        i32::MIN
    } else if x > i32::MAX as i64 {
        i32::MAX
    } else {
        x as i32
    }
}

/// `x / d` rounded to the nearest integer, halves away from zero.
pub(crate) fn round_div_i64(x: i64, d: i64) -> (r: i64)
    requires
        0 < d <= 1_000_000_000_000,
        -0x4000_0000_0000_0000 <= x <= 0x4000_0000_0000_0000,
    ensures
        r == round_div(x as int, d as int),
{
    if x >= 0 {
        let n: u64 = (x + d / 2) as u64;
        let q: u64 = n / (d as u64);
        q as i64
    } else {
        let n: u64 = (-x + d / 2) as u64;
        let q: u64 = n / (d as u64);
        -(q as i64)
    }
}

/// `value` basis points of `amount`, rounded to the nearest integer and
/// limited to what an `i32` holds.
pub fn portion_of(amount: i32, value: Ratio) -> (r: i32)
    ensures
        r == portion(amount as int, value.0 as int),
{
    let product: i64 = mul_i32(amount, value.0);
    narrow_i32(round_div_i64(product, SCALE as i64))
}

/// The exact product of two `i32` values.
pub fn mul_i32(a: i32, b: i32) -> (r: i64)
    ensures
        r == a as int * b as int,
        -0x4000_0000_0000_0000 <= r <= 0x4000_0000_0000_0000,
{
    assert(-0x4000_0000_0000_0000 <= a as int * b as int <= 0x4000_0000_0000_0000)
        by (nonlinear_arith)
        requires
            -0x8000_0000 <= a as int <= 0x7fff_ffff,
            -0x8000_0000 <= b as int <= 0x7fff_ffff,
    ;
    (a as i64) * (b as i64)
}

} // verus!
