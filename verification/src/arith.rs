//! Saturating and absolute-difference arithmetic on the counter widths the
//! engine uses. Reputation-score decreases must saturate instead of failing,
//! while every counter increase is checked; these helpers cover the
//! saturating side and the variance comparison.

use vstd::prelude::*;

verus! {

/// Spec-level saturating subtraction on `i32`: the exact difference, clipped
/// into the representable range.
pub open spec fn spec_saturating_sub_i32(x: i32, y: i32) -> i32 {
    if x - y < i32::MIN {
        i32::MIN
    } else if x - y > i32::MAX {
        i32::MAX
    } else {
        (x - y) as i32
    }
}

/// Saturating subtraction on `i32`, computed through `i64` so the raw
/// difference never overflows.
pub fn saturating_sub_i32(x: i32, y: i32) -> (r: i32)
    ensures
        r == spec_saturating_sub_i32(x, y),
{
    let wide: i64 = (x as i64) - (y as i64);
    if wide < i32::MIN as i64 {
        i32::MIN
    } else if wide > i32::MAX as i64 {
        i32::MAX
    } else {
        wide as i32
    }
}

/// Spec-level absolute difference of two `u64` values.
pub open spec fn spec_abs_diff_u64(x: u64, y: u64) -> u64 {
    if x >= y {
        (x - y) as u64
    } else {
        (y - x) as u64
    }
}

/// Absolute difference of two `u64` values.
pub fn abs_diff_u64(x: u64, y: u64) -> (r: u64)
    ensures
        r == spec_abs_diff_u64(x, y),
{
    if x >= y {
        x - y
    } else {
        y - x
    }
}

} // verus!
