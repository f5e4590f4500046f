//! Fixed-point geometry helpers.
//!
//! All coordinates, radii and colour components in this library are held in
//! centi-units: one hundredth of a pixel (or of a unit colour component).
//! Divisions round to the nearest centi-unit, halves rounding up.

use vstd::prelude::*;

verus! {

/// `a / b` rounded to the nearest integer, halves rounding up;
/// both arguments non-negative, `b` positive.
pub open spec fn round_div_spec(a: int, b: int) -> int {
    (a + b / 2) / b
}

/// The smaller of two values.
pub open spec fn min_spec(a: int, b: int) -> int {
    if a <= b {
        a
    } else {
        b
    }
}

/// Rounding division on machine integers, matching `round_div_spec`.
pub fn round_div(a: u64, b: u64) -> (q: u64)
    requires
        1 <= b,
        a + b / 2 <= u64::MAX,
    ensures
        q == round_div_spec(a as int, b as int),
{
    (a + b / 2) / b
}

/// The smaller of two values, matching `min_spec`.
pub fn min_u64(a: u64, b: u64) -> (m: u64)
    ensures
        m == min_spec(a as int, b as int),
{
    if a <= b {
        a
    } else {
        b
    }
}

} // verus!
