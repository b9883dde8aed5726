use white_whale::asset::{compute_tax, deduct_tax, Asset, AssetInfo, Coin, TaxCap, TaxInfo};
use white_whale::math::Decimal;

/// A 0.5% tax on UST, capped at `cap`.
fn ust_tax(cap: u128) -> TaxInfo {
    TaxInfo {
        rate: Decimal { atomics: 5_000_000_000_000_000 },
        caps: vec![TaxCap { denom: "uusd".to_string(), cap }],
    }
}

#[test]
fn tax_on_ust() {
    let tax = ust_tax(1_000_000);
    // 1_000_000 - floor(1_000_000 / 1.005)
    assert_eq!(compute_tax(&tax, &"uusd".to_string(), 1_000_000), Some(4976));
    // the cap bounds the tax
    let capped = ust_tax(1_000);
    assert_eq!(compute_tax(&capped, &"uusd".to_string(), 1_000_000), Some(1_000));
}

#[test]
fn no_tax_on_luna() {
    let tax = ust_tax(1_000_000);
    assert_eq!(compute_tax(&tax, &"uluna".to_string(), 1_000_000), Some(0));
}

#[test]
fn unknown_cap_fails() {
    let tax = ust_tax(1_000_000);
    assert_eq!(compute_tax(&tax, &"ukrw".to_string(), 1_000_000), None);
    let coin = Coin { denom: "ukrw".to_string(), amount: 5 };
    assert_eq!(deduct_tax(&tax, &coin), None);
}

#[test]
fn delivered_plus_tax_is_amount() {
    let tax = ust_tax(1_000_000);
    let coin = Coin { denom: "uusd".to_string(), amount: 1_000_000 };
    let delivered = deduct_tax(&tax, &coin).unwrap();
    let t = compute_tax(&tax, &coin.denom, coin.amount).unwrap();
    assert_eq!(delivered.denom, "uusd");
    assert_eq!(delivered.amount, 995_024);
    assert_eq!(delivered.amount + t, coin.amount);
}

#[test]
fn asset_text() {
    let asset = Asset { info: AssetInfo::NativeToken { denom: "uusd".to_string() }, amount: 1500 };
    assert_eq!(asset.to_string(), "1500uusd");
    let token = AssetInfo::Token { contract_addr: "terra1token".to_string() };
    assert_eq!(token.to_string(), "terra1token");
}
