//! Wide arithmetic on concrete values.

use token_swap::math::{
    checked_ceil_div, wide_ceil_div, wide_divmod, wide_isqrt, wide_mul, wide_sqrt_ceil, Wide,
};

#[test]
fn wide_mul_crosses_128_bits() {
    let r = wide_mul(u128::MAX, u128::MAX);
    // (2^128 - 1)^2 == 2^256 - 2^129 + 1
    assert_eq!(r.hi, u128::MAX - 1);
    assert_eq!(r.lo, 1);
}

#[test]
fn wide_mul_small_values() {
    let r = wide_mul(1_000_000_007, 998_244_353);
    assert_eq!(r.hi, 0);
    assert_eq!(r.lo, 1_000_000_007u128 * 998_244_353u128);
}

#[test]
fn wide_divmod_recovers_factors() {
    let n = wide_mul(u128::MAX, 12345);
    let (q, rem) = wide_divmod(n, Wide::from_u128(12345));
    assert_eq!(q.to_u128(), Some(u128::MAX));
    assert_eq!(rem.to_u128(), Some(0));
}

#[test]
fn wide_divmod_with_remainder() {
    let n = Wide::from_u128(1_000_000);
    let (q, rem) = wide_divmod(n, Wide::from_u128(1100));
    assert_eq!(q.to_u128(), Some(909));
    assert_eq!(rem.to_u128(), Some(1_000_000 - 909 * 1100));
}

#[test]
fn wide_ceil_div_rounds_up() {
    let q = wide_ceil_div(Wide::from_u128(1_000_000), Wide::from_u128(1100));
    assert_eq!(q.to_u128(), Some(910));
    let exact = wide_ceil_div(Wide::from_u128(1_000_000), Wide::from_u128(1000));
    assert_eq!(exact.to_u128(), Some(1000));
}

#[test]
fn isqrt_on_wide_values() {
    assert_eq!(wide_isqrt(Wide::from_u128(0)), 0);
    assert_eq!(wide_isqrt(Wide::from_u128(1)), 1);
    assert_eq!(wide_isqrt(Wide::from_u128(5_000_000)), 2236);
    let square = wide_mul(u128::MAX, u128::MAX);
    assert_eq!(wide_isqrt(square), u128::MAX);
}

#[test]
fn sqrt_ceil_rounds_up_imperfect_squares() {
    assert_eq!(wide_sqrt_ceil(Wide::from_u128(16)), 4);
    assert_eq!(wide_sqrt_ceil(Wide::from_u128(17)), 5);
}

#[test]
fn checked_ceil_div_returns_pair() {
    // 1_000_000 / 1100 floors to 909; the ceiling is 910, and the least
    // divisor still yielding 910 is ceil(1_000_000 / 910) = 1099.
    assert_eq!(checked_ceil_div(1_000_000, 1100), Some((910, 1099)));
    // Exact division hands the divisor back unchanged.
    assert_eq!(checked_ceil_div(1_000_000, 1000), Some((1000, 1000)));
    // A floored quotient of zero is refused.
    assert_eq!(checked_ceil_div(5, 10), None);
    assert_eq!(checked_ceil_div(5, 0), None);
}
