use tiledb_predicates::arithmetic::{
    i32_checked_add, i32_checked_sub, i64_checked_add, i64_checked_sub, u32_checked_add,
    u32_checked_sub, u64_checked_add, u64_checked_sub, u64_checked_sub_signed,
};

#[test]
fn sums_which_fit_are_stored() {
    let mut a = 0u32;
    assert!(u32_checked_add(u32::MAX - 1, 1, &mut a));
    assert_eq!(a, u32::MAX);
    let mut b = 0i32;
    assert!(i32_checked_add(-5, 3, &mut b));
    assert_eq!(b, -2);
    let mut c = 0u64;
    assert!(u64_checked_add(1 << 40, 1 << 40, &mut c));
    assert_eq!(c, 1 << 41);
    let mut d = 0i64;
    assert!(i64_checked_add(i64::MIN, i64::MAX, &mut d));
    assert_eq!(d, -1);
}

#[test]
fn sums_which_overflow_leave_the_output() {
    let mut a = 7u32;
    assert!(!u32_checked_add(u32::MAX, 1, &mut a));
    assert_eq!(a, 7);
    let mut b = 7i32;
    assert!(!i32_checked_add(i32::MAX, 1, &mut b));
    assert!(!i32_checked_add(i32::MIN, -1, &mut b));
    assert_eq!(b, 7);
    let mut c = 7u64;
    assert!(!u64_checked_add(u64::MAX, u64::MAX, &mut c));
    assert_eq!(c, 7);
    let mut d = 7i64;
    assert!(!i64_checked_add(i64::MAX, 1, &mut d));
    assert_eq!(d, 7);
}

#[test]
fn differences_which_fit_are_stored() {
    let mut a = 0u32;
    assert!(u32_checked_sub(5, 5, &mut a));
    assert_eq!(a, 0);
    let mut b = 0i32;
    assert!(i32_checked_sub(i32::MIN + 1, 1, &mut b));
    assert_eq!(b, i32::MIN);
    let mut c = 0u64;
    assert!(u64_checked_sub(u64::MAX, 1, &mut c));
    assert_eq!(c, u64::MAX - 1);
    let mut d = 0i64;
    assert!(i64_checked_sub(-1, i64::MAX, &mut d));
    assert_eq!(d, i64::MIN);
}

#[test]
fn differences_which_overflow_leave_the_output() {
    let mut a = 7u32;
    assert!(!u32_checked_sub(4, 5, &mut a));
    assert_eq!(a, 7);
    let mut b = 7i32;
    assert!(!i32_checked_sub(i32::MIN, 1, &mut b));
    assert_eq!(b, 7);
    let mut c = 7u64;
    assert!(!u64_checked_sub(0, 1, &mut c));
    assert_eq!(c, 7);
    let mut d = 7i64;
    assert!(!i64_checked_sub(0, i64::MIN, &mut d));
    assert_eq!(d, 7);
}

#[test]
fn unsigned_difference_may_be_negative() {
    let mut out = 7i64;
    assert!(u64_checked_sub_signed(3, 5, &mut out));
    assert_eq!(out, -2);
    assert!(u64_checked_sub_signed(0, 1 << 63, &mut out));
    assert_eq!(out, i64::MIN);
    assert!(u64_checked_sub_signed(u64::MAX, u64::MAX - i64::MAX as u64, &mut out));
    assert_eq!(out, i64::MAX);
    out = 7;
    assert!(!u64_checked_sub_signed(u64::MAX, 0, &mut out));
    assert!(!u64_checked_sub_signed(0, (1 << 63) + 1, &mut out));
    assert!(!u64_checked_sub_signed(1 << 63, 0, &mut out));
    assert_eq!(out, 7);
}
