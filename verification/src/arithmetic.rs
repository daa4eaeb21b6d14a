//! Integer arithmetic which reports overflow instead of wrapping.

use vstd::prelude::*;

verus! {

/// Adds `b` to `a` as `u32`. Returns whether the sum fits, and stores it in
/// `out` if it does; `out` keeps its value if it does not.
pub fn u32_checked_add(a: u32, b: u32, out: &mut u32) -> (fits: bool)
    ensures
        fits == (u32::MIN <= a + b <= u32::MAX),
        fits ==> *final(out) == a + b,
        !fits ==> *final(out) == *old(out),
{
    match a.checked_add(b) {
        Some(result) => {
            *out = result;
            true
        },
        None => false,
    }
}

/// Adds `b` to `a` as `i32`. Returns whether the sum fits, and stores it in
/// `out` if it does; `out` keeps its value if it does not.
pub fn i32_checked_add(a: i32, b: i32, out: &mut i32) -> (fits: bool)
    ensures
        fits == (i32::MIN <= a + b <= i32::MAX),
        fits ==> *final(out) == a + b,
        !fits ==> *final(out) == *old(out),
{
    match a.checked_add(b) {
        Some(result) => {
            *out = result;
            true
        },
        None => false,
    }
}

/// Adds `b` to `a` as `u64`. Returns whether the sum fits, and stores it in
/// `out` if it does; `out` keeps its value if it does not.
pub fn u64_checked_add(a: u64, b: u64, out: &mut u64) -> (fits: bool)
    ensures
        fits == (u64::MIN <= a + b <= u64::MAX),
        fits ==> *final(out) == a + b,
        !fits ==> *final(out) == *old(out),
{
    match a.checked_add(b) {
        Some(result) => {
            *out = result;
            true
        },
        None => false,
    }
}

/// Adds `b` to `a` as `i64`. Returns whether the sum fits, and stores it in
/// `out` if it does; `out` keeps its value if it does not.
pub fn i64_checked_add(a: i64, b: i64, out: &mut i64) -> (fits: bool)
    ensures
        fits == (i64::MIN <= a + b <= i64::MAX),
        fits ==> *final(out) == a + b,
        !fits ==> *final(out) == *old(out),
{
    match a.checked_add(b) {
        Some(result) => {
            *out = result;
            true
        },
        None => false,
    }
}

/// Subtracts `b` from `a` as `u32`. Returns whether the difference fits, and stores it in
/// `out` if it does; `out` keeps its value if it does not.
pub fn u32_checked_sub(a: u32, b: u32, out: &mut u32) -> (fits: bool)
    ensures
        fits == (u32::MIN <= a - b <= u32::MAX),
        fits ==> *final(out) == a - b,
        !fits ==> *final(out) == *old(out),
{
    match a.checked_sub(b) {
        Some(result) => {
            *out = result;
            true
        },
        None => false,
    }
}

/// Subtracts `b` from `a` as `i32`. Returns whether the difference fits, and stores it in
/// `out` if it does; `out` keeps its value if it does not.
pub fn i32_checked_sub(a: i32, b: i32, out: &mut i32) -> (fits: bool)
    ensures
        fits == (i32::MIN <= a - b <= i32::MAX),
        fits ==> *final(out) == a - b,
        !fits ==> *final(out) == *old(out),
{
    match a.checked_sub(b) {
        Some(result) => {
            *out = result;
            true
        },
        None => false,
    }
}

/// Subtracts `b` from `a` as `u64`. Returns whether the difference fits, and stores it in
/// `out` if it does; `out` keeps its value if it does not.
pub fn u64_checked_sub(a: u64, b: u64, out: &mut u64) -> (fits: bool)
    ensures
        fits == (u64::MIN <= a - b <= u64::MAX),
        fits ==> *final(out) == a - b,
        !fits ==> *final(out) == *old(out),
{
    match a.checked_sub(b) {
        Some(result) => {
            *out = result;
            true
        },
        None => false,
    }
}

/// Subtracts `b` from `a` as `i64`. Returns whether the difference fits, and stores it in
/// `out` if it does; `out` keeps its value if it does not.
pub fn i64_checked_sub(a: i64, b: i64, out: &mut i64) -> (fits: bool)
    ensures
        fits == (i64::MIN <= a - b <= i64::MAX),
        fits ==> *final(out) == a - b,
        !fits ==> *final(out) == *old(out),
{
    match a.checked_sub(b) {
        Some(result) => {
            *out = result;
            true
        },
        None => false,
    }
}

/// Subtracts `b` from `a` where the difference may be negative. Returns
/// whether the difference fits in `i64`, and stores it in `out` if it does;
/// `out` keeps its value if it does not.
pub fn u64_checked_sub_signed(a: u64, b: u64, out: &mut i64) -> (fits: bool)
    ensures
        fits == (i64::MIN <= a - b <= i64::MAX),
        fits ==> *final(out) == a - b,
        !fits ==> *final(out) == *old(out),
{
    if a >= b {
        let difference: u64 = a - b;
        if difference <= 0x7fff_ffff_ffff_ffff {
            *out = difference as i64;
            true
        } else {
            false
        }
    } else {
        let difference: u64 = b - a;
        if difference <= 0x7fff_ffff_ffff_ffff {
            *out = -(difference as i64);
            true
        } else if difference == 0x8000_0000_0000_0000 {
            *out = i64::MIN;
            true
        } else {
            false
        }
    }
}

} // verus!
