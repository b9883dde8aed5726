use white_whale::math::{mul_decimal, u64_to_string, Decimal, Uint256};

#[test]
fn decimal_constructors() {
    assert_eq!(Decimal::percent(20).atomics, 200_000_000_000_000_000u128);
    assert_eq!(Decimal::one().atomics, 1_000_000_000_000_000_000u128);
    assert!(Decimal::zero().is_zero());
    // one third, rounded down to 18 decimals
    assert_eq!(Decimal::from_ratio(1, 3).atomics, 333_333_333_333_333_333u128);
    assert_eq!(Decimal::from_ratio(99, 100).atomics, 990_000_000_000_000_000u128);
}

#[test]
fn decimal_reverse() {
    assert_eq!(Decimal::percent(50).reverse().atomics, 2_000_000_000_000_000_000u128);
    assert_eq!(Decimal::from_ratio(3, 1).reverse().atomics, 333_333_333_333_333_333u128);
    assert_eq!(Decimal::zero().reverse().atomics, 0);
}

#[test]
fn amount_times_decimal() {
    assert_eq!(mul_decimal(1_000_000, Decimal::percent(20)), 200_000);
    assert_eq!(mul_decimal(7, Decimal::from_ratio(1, 2)), 3);
    assert_eq!(mul_decimal(0, Decimal::percent(20)), 0);
}

#[test]
fn uint256_arithmetic() {
    let max = Uint256::from_u128(u128::MAX);
    let one = Uint256::from_u128(1);
    let sum = max.add(&one);
    assert_eq!(sum, Uint256 { lo: 0, hi: 1 });
    assert!(!sum.fits_u128());
    assert!(max.lt(&sum));
    assert!(!sum.lt(&max));
    assert_eq!(sum.sub(&one), max);
    assert_eq!(sum.sub(&max), one);
    assert!(Uint256::zero().is_zero());
    assert_eq!(Uint256::from_u128(42).to_u128(), 42);
}

#[test]
fn decimal_notation() {
    assert_eq!(u64_to_string(0), "0");
    assert_eq!(u64_to_string(7), "7");
    assert_eq!(u64_to_string(1000), "1000");
    assert_eq!(u64_to_string(u64::MAX), u64::MAX.to_string());
    assert_eq!(Uint256::from_u128(u128::MAX).to_string(), u128::MAX.to_string());
    // 2^128
    assert_eq!(Uint256 { lo: 0, hi: 1 }.to_string(), "340282366920938463463374607431768211456");
    assert_eq!(
        Uint256 { lo: u128::MAX, hi: u128::MAX }.to_string(),
        "115792089237316195423570985008687907853269984665640564039457584007913129639935"
    );
}

#[test]
fn distinct_numbers_have_distinct_notations() {
    assert_ne!(u64_to_string(12), u64_to_string(21));
    assert_ne!(u64_to_string(1), u64_to_string(10));
}
