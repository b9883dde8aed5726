use white_whale::math::Decimal;
use white_whale::white_whale::fee::Fee;

#[test]
fn test_fee() {
    let fee = Fee { share: Decimal::percent(20u64) };
    let deposit: u128 = 1000000;
    let deposit_fee = fee.compute(deposit);
    assert_eq!(deposit_fee, 200000u128);
}

#[test]
fn fee_never_exceeds_the_amount() {
    let fee = Fee { share: Decimal::one() };
    assert_eq!(fee.compute(12345), 12345);
    let fee = Fee { share: Decimal::percent(1) };
    assert_eq!(fee.compute(99), 0);
    assert_eq!(fee.compute(1000), 10);
}
