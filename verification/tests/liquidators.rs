use white_whale::asset::{AssetInfo, TaxCap, TaxInfo};
use white_whale::contracts::{arbitrage_helper, mars_helper};
use white_whale::cosmos::{BankMsg, CosmosMsg};
use white_whale::error::ContractError;
use white_whale::liquidation_helpers::dex_arb_helper::{self, DexInfo, PoolInfo};
use white_whale::liquidation_helpers::mars_helper::{CallbackMsg, MarsAsset};
use white_whale::math::{Decimal, Uint256};

fn ust_tax() -> TaxInfo {
    TaxInfo {
        rate: Decimal { atomics: 5_000_000_000_000_000 },
        caps: vec![TaxCap { denom: "uusd".to_string(), cap: 1_000_000 }],
    }
}

fn arb_setup() -> (arbitrage_helper::Config, arbitrage_helper::State) {
    let pool = PoolInfo {
        asset_token: AssetInfo::NativeToken { denom: "uluna".to_string() },
        pair_address: "pair".to_string(),
    };
    let msg = dex_arb_helper::InstantiateMsg {
        owner: "owner".to_string(),
        ust_vault_address: "vault".to_string(),
        astroport_router: "router".to_string(),
        stable_denom: "uusd".to_string(),
        terraswap_pools: pool.clone(),
        loop_pools: pool,
    };
    arbitrage_helper::instantiate(msg, true).unwrap()
}

#[test]
fn arbitrage_profit_is_recorded() {
    let (config, mut state) = arb_setup();
    let res = arbitrage_helper::after_sell_callback(
        &config,
        &mut state,
        &ust_tax(),
        1_100_000,
        Uint256::from_u128(1_000_000),
    )
    .unwrap();
    // 1_100_000 less the tax on returning it, 5473, above the loan
    assert_eq!(state.total_arbs, 1);
    assert_eq!(state.total_ust_profit, Uint256::from_u128(94_527));
    assert_eq!(res.messages.len(), 1);
    match &res.messages[0].msg {
        CosmosMsg::Bank(BankMsg::Send { to_address, amount }) => {
            assert_eq!(to_address, "vault");
            assert_eq!(amount.len(), 1);
            assert_eq!(amount[0].denom, "uusd");
            assert_eq!(amount[0].amount, 1_094_527);
        }
        _ => panic!("expected a bank transfer"),
    }
}

#[test]
fn arbitrage_loss_is_refused() {
    let (config, mut state) = arb_setup();
    let before = state;
    let res = arbitrage_helper::after_sell_callback(
        &config,
        &mut state,
        &ust_tax(),
        1_000_000,
        Uint256::from_u128(1_000_000),
    );
    assert_eq!(
        res,
        Err(ContractError::InsufficientReturn {
            received: Uint256::from_u128(995_024),
            minimum: Uint256::from_u128(1_000_000)
        })
    );
    assert_eq!(state, before);
}

#[test]
fn arbitrage_pools_are_listed_once() {
    let (mut config, _state) = arb_setup();
    let pool = PoolInfo {
        asset_token: AssetInfo::Token { contract_addr: "bluna".to_string() },
        pair_address: "pair2".to_string(),
    };
    assert!(arbitrage_helper::handle_add_pool(&mut config, &"owner".to_string(), DexInfo::Terraswap, pool.clone()).is_ok());
    assert_eq!(
        arbitrage_helper::handle_add_pool(&mut config, &"owner".to_string(), DexInfo::Terraswap, pool.clone()),
        Err(ContractError::AlreadySupported)
    );
    assert_eq!(
        arbitrage_helper::handle_add_pool(&mut config, &"stranger".to_string(), DexInfo::Loop, pool.clone()),
        Err(ContractError::Unauthorized)
    );
    assert_eq!(
        arbitrage_helper::handle_add_pool(&mut config, &"owner".to_string(), DexInfo::Astroport, pool),
        Err(ContractError::PoolDataNotNeededForAstroport)
    );
    assert_eq!(config.terraswap_pools.len(), 1);
}

fn mars_setup() -> (mars_helper::Config, mars_helper::State) {
    let msg = white_whale::liquidation_helpers::mars_helper::InstantiateMsg {
        owner: "owner".to_string(),
        ust_arb_strategy: "vault".to_string(),
        red_bank_addr: "redbank".to_string(),
        astroport_router: "router".to_string(),
        stable_denom: "uusd".to_string(),
    };
    mars_helper::instantiate(msg, true).unwrap()
}

#[test]
fn liquidation_profit_is_recorded() {
    let (config, mut state) = mars_setup();
    let res = mars_helper::after_assets_sell_callback(
        &config,
        &mut state,
        &ust_tax(),
        1_000_000,
        Uint256::from_u128(1_000_000),
        Uint256::from_u128(10_000),
    )
    .unwrap();
    // 995_024 returned against a minimum of 990_000
    assert_eq!(state.total_liquidations, 1);
    assert_eq!(state.total_ust_profit, Uint256::from_u128(5_024));
    assert_eq!(res.messages.len(), 1);
}

#[test]
fn liquidation_beyond_tolerated_loss_is_refused() {
    let (config, mut state) = mars_setup();
    let res = mars_helper::after_assets_sell_callback(
        &config,
        &mut state,
        &ust_tax(),
        990_000,
        Uint256::from_u128(1_000_000),
        Uint256::from_u128(10_000),
    );
    assert_eq!(
        res,
        Err(ContractError::InsufficientReturn {
            received: Uint256::from_u128(985_074),
            minimum: Uint256::from_u128(990_000)
        })
    );
    assert_eq!(state.total_liquidations, 0);
}

#[test]
fn liquidation_sells_debt_and_collateral() {
    let (config, _state) = mars_setup();
    let holding = mars_helper::AssetHolding { addr_valid: true, balance: 500 };
    let res = mars_helper::after_liquidation_callback(
        &config,
        &ust_tax(),
        &"helper".to_string(),
        MarsAsset::Cw20 { contract_addr: "mtoken".to_string() },
        MarsAsset::Native { denom: "uluna".to_string() },
        Uint256::from_u128(1_000_000),
        Uint256::from_u128(10_000),
        holding,
        holding,
    )
    .unwrap();
    assert_eq!(res.messages.len(), 3);
    // a UST debt needs no sale
    let res = mars_helper::after_liquidation_callback(
        &config,
        &ust_tax(),
        &"helper".to_string(),
        MarsAsset::Native { denom: "uusd".to_string() },
        MarsAsset::Native { denom: "uluna".to_string() },
        Uint256::from_u128(1_000_000),
        Uint256::from_u128(10_000),
        holding,
        holding,
    )
    .unwrap();
    assert_eq!(res.messages.len(), 2);
    // an invalid token address stops the liquidation
    let bad = mars_helper::AssetHolding { addr_valid: false, balance: 500 };
    let res = mars_helper::after_liquidation_callback(
        &config,
        &ust_tax(),
        &"helper".to_string(),
        MarsAsset::Native { denom: "uusd".to_string() },
        MarsAsset::Cw20 { contract_addr: "mtoken".to_string() },
        Uint256::from_u128(1_000_000),
        Uint256::from_u128(10_000),
        holding,
        bad,
    );
    assert_eq!(res, Err(ContractError::InvalidAddress));
}

#[test]
fn callbacks_come_only_from_the_contract() {
    let (config, mut state) = mars_setup();
    let ctx = mars_helper::CallbackContext {
        funds: vec![],
        debt: mars_helper::AssetHolding { addr_valid: true, balance: 0 },
        collateral: mars_helper::AssetHolding { addr_valid: true, balance: 0 },
        ust_balance: 0,
    };
    let msg = CallbackMsg::AfterAssetsSellCallback {
        ust_amount: Uint256::from_u128(1),
        max_loss_amount: Uint256::from_u128(0),
    };
    let res = mars_helper::handle_callback(
        &config,
        &mut state,
        &ust_tax(),
        &"stranger".to_string(),
        &"helper".to_string(),
        msg,
        &ctx,
    );
    assert_eq!(res, Err(ContractError::CallbackFromOutside));
}
