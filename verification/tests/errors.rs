use white_whale::asset::{Asset, AssetInfo, Coin, TaxCap, TaxInfo};
use white_whale::contracts::{arbitrage_helper, mars_helper, test_contract};
use white_whale::error::ContractError;
use white_whale::liquidation_helpers::dex_arb_helper::{self, DexInfo, PoolInfo};
use white_whale::liquidation_helpers::mars_helper::{
    InstantiateMsg, InterestRateStrategy, LinearInterestRate, MarsAsset, MarsAssetType, RedBankMarketQueryResponse,
};
use white_whale::math::Decimal;
use white_whale::white_whale::anchor::try_deposit_to_anchor;

fn ust_tax() -> TaxInfo {
    TaxInfo {
        rate: Decimal { atomics: 5_000_000_000_000_000 },
        caps: vec![TaxCap { denom: "uusd".to_string(), cap: 1_000_000 }],
    }
}

fn native(denom: &str, amount: u128) -> Asset {
    Asset { info: AssetInfo::NativeToken { denom: denom.to_string() }, amount }
}

#[test]
fn asset_tax_errors() {
    let tax = ust_tax();
    assert_eq!(native("ukrw", 10).compute_tax(&tax), Err(ContractError::TaxQueryFailed));
    assert_eq!(native("uusd", 1_000_000).compute_tax(&tax), Ok(4976));
    assert_eq!(native("uluna", 1_000_000).compute_tax(&tax), Ok(0));
    let token = Asset { info: AssetInfo::Token { contract_addr: "t".to_string() }, amount: 10 };
    assert_eq!(token.compute_tax(&tax), Ok(0));
    assert_eq!(token.deduct_tax(&tax), Err(ContractError::CannotDeductTaxFromToken));
    assert_eq!(
        native("uusd", 1_000_000).deduct_tax(&tax),
        Ok(Coin { denom: "uusd".to_string(), amount: 995_024 })
    );
}

#[test]
fn sent_coins_must_match() {
    let funds = vec![Coin { denom: "uusd".to_string(), amount: 100 }];
    assert_eq!(native("uusd", 100).assert_sent_native_token_balance(&funds), Ok(()));
    assert_eq!(
        native("uusd", 99).assert_sent_native_token_balance(&funds),
        Err(ContractError::NativeTokenBalanceMismatch)
    );
    assert_eq!(native("uluna", 0).assert_sent_native_token_balance(&funds), Ok(()));
    assert_eq!(
        native("uluna", 1).assert_sent_native_token_balance(&funds),
        Err(ContractError::NativeTokenBalanceMismatch)
    );
}

#[test]
fn anchor_takes_only_ust() {
    let res = try_deposit_to_anchor("anchor".to_string(), Coin { denom: "uluna".to_string(), amount: 5 });
    assert_eq!(res, Err(ContractError::WrongCurrency));
    let res = try_deposit_to_anchor("anchor".to_string(), Coin { denom: "uusd".to_string(), amount: 5 }).unwrap();
    assert_eq!(res.messages.len(), 1);
}

#[test]
fn arbitrage_needs_a_listed_pair() {
    let pool = PoolInfo { asset_token: AssetInfo::NativeToken { denom: "uluna".to_string() }, pair_address: "pair".to_string() };
    let msg = dex_arb_helper::InstantiateMsg {
        owner: "owner".to_string(),
        ust_vault_address: "vault".to_string(),
        astroport_router: "router".to_string(),
        stable_denom: "uusd".to_string(),
        terraswap_pools: pool.clone(),
        loop_pools: pool,
    };
    let (config, _state) = arbitrage_helper::instantiate(msg, true).unwrap();
    let res = arbitrage_helper::initiate_arb_callback(
        &config,
        &ust_tax(),
        &"helper".to_string(),
        &vec![Coin { denom: "uusd".to_string(), amount: 1_000 }],
        DexInfo::Terraswap,
        DexInfo::Astroport,
        AssetInfo::NativeToken { denom: "uluna".to_string() },
        true,
    );
    assert_eq!(res, Err(ContractError::PairInfoNotFound));
}

fn market(active: bool) -> RedBankMarketQueryResponse {
    let zero = Decimal::zero();
    RedBankMarketQueryResponse {
        index: 0,
        ma_token_address: "maluna".to_string(),
        asset_type: MarsAssetType::Native,
        max_loan_to_value: Decimal::percent(50),
        liquidation_threshold: Decimal::percent(60),
        liquidation_bonus: Decimal::percent(5),
        reserve_factor: zero,
        interest_rate_strategy: InterestRateStrategy::Linear(LinearInterestRate {
            optimal_utilization_rate: zero,
            base: zero,
            slope_1: zero,
            slope_2: zero,
        }),
        borrow_index: Decimal::one(),
        liquidity_index: Decimal::one(),
        borrow_rate: zero,
        liquidity_rate: zero,
        interests_last_updated: 0,
        debt_total_scaled: 0,
        active,
        deposit_enabled: true,
        borrow_enabled: true,
    }
}

#[test]
fn mars_assets() {
    let msg = InstantiateMsg {
        owner: "owner".to_string(),
        ust_arb_strategy: "vault".to_string(),
        red_bank_addr: "redbank".to_string(),
        astroport_router: "router".to_string(),
        stable_denom: "uusd".to_string(),
    };
    let (mut config, _state) = mars_helper::instantiate(msg, true).unwrap();
    let owner = "owner".to_string();
    let luna = || MarsAsset::Native { denom: "uluna".to_string() };
    assert_eq!(mars_helper::handle_add_asset(&mut config, &owner, luna(), None), Err(ContractError::QueryFailed));
    assert_eq!(
        mars_helper::handle_add_asset(&mut config, &owner, luna(), Some(market(false))),
        Err(ContractError::MarketNotActive)
    );
    assert!(mars_helper::handle_add_asset(&mut config, &owner, luna(), Some(market(true))).is_ok());
    assert_eq!(config.assets_supported.len(), 1);
    assert_eq!(config.assets_supported[0].ma_token_address, "maluna");
    // an asset is liquidated at most once
    assert_eq!(
        mars_helper::handle_add_asset(&mut config, &owner, luna(), Some(market(true))),
        Err(ContractError::AlreadySupported)
    );
    assert_eq!(
        mars_helper::handle_add_asset(&mut config, &"x".to_string(), luna(), Some(market(true))),
        Err(ContractError::Unauthorized)
    );
    assert_eq!(config.assets_supported.len(), 1);
}

#[test]
fn the_test_contract_answers_no_query() {
    assert_eq!(test_contract::query(test_contract::QueryMsg::Pool), Err(ContractError::NotImplemented));
}
