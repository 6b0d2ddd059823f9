//! Fixed-point money values with four decimal places.
//!
//! Amounts, prices and incomes are stored as a signed count of
//! ten-thousandths, so every quantity the ledger works with is exact
//! decimal arithmetic on `i64` units.

use vstd::prelude::*;

verus! {

/// Number of units in one whole: values carry four decimal places.
pub const SCALE: i64 = 10000;

/// A monetary quantity stored as a signed count of ten-thousandths.
#[derive(Clone, Copy, Debug, PartialEq, Eq, Structural)]
pub struct Fixed {
    pub units: i64,
}

/// Truncating integer division (rounding toward zero), made total:
/// division by zero yields zero.
pub open spec fn div_trunc(x: int, d: int) -> int {
    if d == 0 {
        0
    } else if x == 0 {
        0
    } else if x > 0 && d > 0 {
        x / d
    } else if x < 0 && d < 0 {
        (x * -1) / (d * -1)
    } else if x < 0 {
        ((x * -1) / d) * -1
    } else {
        (x / (d * -1)) * -1
    }
}

/// Product of two unit counts brought back to the fixed scale.
pub open spec fn fix_mul(a: int, b: int) -> int {
    div_trunc(a * b, SCALE as int)
}

/// Quotient of two unit counts at the fixed scale.
pub open spec fn fix_div(a: int, b: int) -> int {
    div_trunc(a * (SCALE as int), b)
}

/// Whether a mathematical integer fits the unit type.
pub open spec fn fits_units(x: int) -> bool {
    i64::MIN <= x <= i64::MAX
}

/// Magnitude of the quotient never exceeds the magnitude of the dividend.
pub proof fn lemma_div_trunc_bound(x: int, d: int)
    requires
        0 <= x,
    ensures
        -x <= div_trunc(x, d) <= x,
        -x <= div_trunc(-x, d) <= x,
{
    if d != 0 && x != 0 {
        let m = if d > 0 { d } else { d * -1 };
        vstd::arithmetic::div_mod::lemma_div_pos_is_pos(x, m);
        vstd::arithmetic::div_mod::lemma_div_nonincreasing(x, m);
    }
}

/// Product of a difference of unit counts and a unit count; the factors
/// are small enough that the product fits the machine type.
pub(crate) fn mul_i128(a: i128, b: i128) -> (r: i128)
    requires
        -0xFFFF_FFFF_FFFF_FFFF <= a <= 0xFFFF_FFFF_FFFF_FFFF,
        -0x8000_0000_0000_0000 <= b <= 0x8000_0000_0000_0000,
    ensures
        r == a * b,
        -0x7FFF_FFFF_FFFF_FFFF_8000_0000_0000_0000 <= r
            <= 0x7FFF_FFFF_FFFF_FFFF_8000_0000_0000_0000,
{
    proof {
        assert(-0x7FFF_FFFF_FFFF_FFFF_8000_0000_0000_0000 <= a * b
            <= 0x7FFF_FFFF_FFFF_FFFF_8000_0000_0000_0000) by (nonlinear_arith)
            requires
                -0xFFFF_FFFF_FFFF_FFFF <= a <= 0xFFFF_FFFF_FFFF_FFFF,
                -0x8000_0000_0000_0000 <= b <= 0x8000_0000_0000_0000,
        ;
    }
    a * b
}

/// Truncating division on machine integers; total, zero for a zero divisor.
pub(crate) fn div_trunc_i128(x: i128, d: i128) -> (r: i128)
    requires
        x != i128::MIN,
    ensures
        r == div_trunc(x as int, d as int),
{
    proof {
        if x >= 0 {
            lemma_div_trunc_bound(x as int, d as int);
        } else {
            lemma_div_trunc_bound(-(x as int), d as int);
        }
    }
    match x.checked_div(d) {
        Some(q) => q,
        None => 0,
    }
}

/// The magnitude of a mathematical integer.
pub open spec fn abs_int(x: int) -> int {
    if x < 0 {
        x * -1
    } else {
        x
    }
}

/// The value a displayed quantity is rounded to. A value whose integer
/// part, printed with its sign, takes at least four characters (1000 and
/// up, or -100 and down) is rounded to a whole number, half away from
/// zero; every other value keeps its four decimal places. A whole number
/// is returned unchanged.
pub open spec fn round_units(u: int) -> int {
    let s = SCALE as int;
    if abs_int(u) % s == 0 {
        u
    } else if u >= 0 && u / s >= 1000 {
        ((u + s / 2) / s) * s
    } else if u < 0 && abs_int(u) / s >= 100 {
        (((abs_int(u) + s / 2) / s) * s) * -1
    } else {
        u
    }
}

impl Fixed {
    /// The value as a count of ten-thousandths.
    pub open spec fn view(self) -> int {
        self.units as int
    }

    pub fn from_units(units: i64) -> (r: Fixed)
        ensures
            r@ == units as int,
    {
        Fixed { units }
    }

    pub fn from_int(whole: i64) -> (r: Fixed)
        requires
            -900_000_000_000_000 <= whole <= 900_000_000_000_000,
        ensures
            r@ == whole * SCALE,
    {
        Fixed { units: whole * SCALE }
    }

    /// Rounds the value for display, as [`round_units`] states.
    pub fn round(self) -> (r: Fixed)
        requires
            fits_units(round_units(self@)),
        ensures
            r@ == round_units(self@),
    {
        let neg = self.units < 0;
        let mag: u128 = if neg {
            (-(self.units as i128)) as u128
        } else {
            self.units as u128
        };
        if mag % 10000 == 0 {
            return self;
        }
        let ip: u128 = mag / 10000;
        if (!neg && ip >= 1000) || (neg && ip >= 100) {
            let q: u128 = (mag + 5000) / 10000;
            proof {
                vstd::arithmetic::div_mod::lemma_fundamental_div_mod(
                    mag as int + 5000,
                    10000,
                );
                vstd::arithmetic::div_mod::lemma_mod_division_less_than_divisor(
                    mag as int + 5000,
                    10000,
                );
            }
            let rmag: u128 = q * 10000;
            let units: i128 = if neg {
                -(rmag as i128)
            } else {
                rmag as i128
            };
            Fixed { units: units as i64 }
        } else {
            self
        }
    }
}

} // verus!
