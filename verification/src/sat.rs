//! Saturating arithmetic on signed 32-bit values, with the meaning std gives it.

use vstd::prelude::*;

verus! {

/// `a + b`, clamped into the `i32` range.
pub open spec fn sat_add_i32_spec(a: int, b: int) -> i32 {
    if a + b > i32::MAX { i32::MAX } else if a + b < i32::MIN { i32::MIN } else { (a + b) as i32 }
}

/// `a - b`, clamped into the `i32` range.
pub open spec fn sat_sub_i32_spec(a: int, b: int) -> i32 {
    sat_add_i32_spec(a, -b)
}

/// Saturating `i32` addition.
pub fn sat_add_i32(a: i32, b: i32) -> (r: i32)
    ensures
        r == sat_add_i32_spec(a as int, b as int),
{
    let s: i64 = a as i64 + b as i64;
    if s > i32::MAX as i64 {
        i32::MAX
    } else if s < i32::MIN as i64 {
        i32::MIN
    } else {
        s as i32
    }
}

/// Saturating `i32` subtraction.
pub fn sat_sub_i32(a: i32, b: i32) -> (r: i32)
    ensures
        r == sat_sub_i32_spec(a as int, b as int),
{
    let s: i64 = a as i64 - b as i64;
    if s > i32::MAX as i64 {
        i32::MAX
    } else if s < i32::MIN as i64 {
        i32::MIN
    } else {
        s as i32
    }
}

/// `a * b`, clamped to `u64::MAX`.
pub open spec fn sat_mul_u64_spec(a: u64, b: u64) -> u64 {
    if a * b > u64::MAX { u64::MAX } else { (a * b) as u64 }
}

/// Saturating `u64` multiplication.
pub fn sat_mul_u64(a: u64, b: u64) -> (r: u64)
    ensures
        r == sat_mul_u64_spec(a, b),
{
    match a.checked_mul(b) {
        Some(p) => p,
        None => u64::MAX,
    }
}

/// `a * b`, clamped to `usize::MAX`.
pub open spec fn sat_mul_usize_spec(a: usize, b: usize) -> usize {
    if a * b > usize::MAX { usize::MAX } else { (a * b) as usize }
}

/// Saturating `usize` multiplication.
pub fn sat_mul_usize(a: usize, b: usize) -> (r: usize)
    ensures
        r == sat_mul_usize_spec(a, b),
{
    match a.checked_mul(b) {
        Some(p) => p,
        None => usize::MAX,
    }
}

} // verus!
