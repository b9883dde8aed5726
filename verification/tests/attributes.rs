use white_whale::asset::{AssetInfo, Coin, TaxCap, TaxInfo};
use white_whale::contracts::war_chest::{self, ExecuteMsg, InstantiateMsg};
use white_whale::contracts::{arbitrage_helper, mars_helper, nft_minter, whale_lp_staking};
use white_whale::cosmos::Response;
use white_whale::liquidation_helpers::dex_arb_helper::{self, DexInfo, PoolInfo};
use white_whale::liquidation_helpers::mars_helper::MarsAsset;
use white_whale::liquidation_helpers::nft::Metadata;
use white_whale::math::{Decimal, Uint256};
use white_whale::white_whale::memory::Memory;
use white_whale::white_whale::treasury::dapp_base::commands::DappBase;
use white_whale::white_whale::treasury::dapp_base::msg::BaseExecuteMsg;
use white_whale::white_whale::treasury::dapp_base::state::{AddressBook, BaseState};

fn reported(r: &Response) -> Vec<(String, String)> {
    r.attributes.iter().map(|a| (a.key.clone(), a.value.clone())).collect()
}

fn pairs(expected: &[(&str, &str)]) -> Vec<(String, String)> {
    expected.iter().map(|(k, v)| (k.to_string(), v.to_string())).collect()
}

fn ust_tax() -> TaxInfo {
    TaxInfo {
        rate: Decimal { atomics: 5_000_000_000_000_000 },
        caps: vec![TaxCap { denom: "uusd".to_string(), cap: 1_000_000 }],
    }
}

fn luna() -> AssetInfo {
    AssetInfo::NativeToken { denom: "uluna".to_string() }
}

fn arb_config() -> arbitrage_helper::Config {
    let pool = PoolInfo { asset_token: luna(), pair_address: "pair".to_string() };
    let msg = dex_arb_helper::InstantiateMsg {
        owner: "owner".to_string(),
        ust_vault_address: "vault".to_string(),
        astroport_router: "router".to_string(),
        stable_denom: "uusd".to_string(),
        terraswap_pools: pool.clone(),
        loop_pools: pool.clone(),
    };
    let mut config = arbitrage_helper::instantiate(msg, true).unwrap().0;
    let owner = "owner".to_string();
    arbitrage_helper::handle_add_pool(&mut config, &owner, DexInfo::Terraswap, pool.clone()).unwrap();
    arbitrage_helper::handle_add_pool(&mut config, &owner, DexInfo::Loop, pool).unwrap();
    config
}

#[test]
fn a_spend_reports_its_recipient_and_amount() {
    let mut state = war_chest::instantiate(
        InstantiateMsg { gov_contract: "gov".to_string(), whale_token: "whale".to_string(), spend_limit: 100 },
        true,
    )
    .unwrap();
    let gov = "gov".to_string();
    let res = war_chest::execute(&mut state, &gov, ExecuteMsg::Spend { recipient: "alice".to_string(), amount: 42 })
        .unwrap();
    assert_eq!(reported(&res), pairs(&[("action", "spend"), ("recipient", "alice"), ("amount", "42")]));
    let res = war_chest::execute(&mut state, &gov, ExecuteMsg::UpdateSpendLimit { spend_limit: 7 }).unwrap();
    assert_eq!(
        reported(&res),
        pairs(&[("action", "update_spend_limit"), ("previous spend limit", "100"), ("spend limit", "7")])
    );
}

#[test]
fn a_new_admin_reports_the_previous_one() {
    let state = BaseState {
        treasury_address: "treasury".to_string(),
        trader: "trader".to_string(),
        memory: Memory { address: "memory".to_string() },
    };
    let mut dapp = DappBase { state, admin: Some("admin".to_string()), address_book: AddressBook::new() };
    let admin = "admin".to_string();
    let res = dapp.handle_base_message(&admin, BaseExecuteMsg::SetAdmin { admin: "new".to_string() }, true).unwrap();
    assert_eq!(reported(&res), pairs(&[("previous admin", "admin"), ("admin", "new")]));
    assert_eq!(dapp.admin, Some("new".to_string()));
    let new_admin = "new".to_string();
    let res = dapp
        .handle_base_message(&new_admin, BaseExecuteMsg::UpdateConfig { treasury_address: None, trader: None }, true)
        .unwrap();
    assert_eq!(reported(&res), pairs(&[("Update:", "Successfull")]));
    let res = dapp
        .handle_base_message(&new_admin, BaseExecuteMsg::UpdateAddressBook { to_add: vec![], to_remove: vec![] }, true)
        .unwrap();
    assert_eq!(reported(&res), pairs(&[("action", "updated address book")]));
}

#[test]
fn an_added_pool_reports_its_exchange_and_address() {
    let mut config = arb_config();
    let owner = "owner".to_string();
    let token = AssetInfo::Token { contract_addr: "tok".to_string() };
    let pool = PoolInfo { asset_token: token, pair_address: "tok_pair".to_string() };
    let res = arbitrage_helper::handle_add_pool(&mut config, &owner, DexInfo::Terraswap, pool.clone()).unwrap();
    assert_eq!(reported(&res), pairs(&[("action", "Add_Terraswap_Pool"), ("pool_address", "tok_pair")]));
    let res = arbitrage_helper::handle_add_pool(&mut config, &owner, DexInfo::Loop, pool).unwrap();
    assert_eq!(reported(&res), pairs(&[("action", "Add_Loop_Pool"), ("pool_address", "tok_pair")]));
}

#[test]
fn a_sale_reports_the_exchange_and_the_amount_sold() {
    let config = arb_config();
    let me = "helper".to_string();
    let sell = |side: DexInfo, asset: AssetInfo, balance: u128| {
        arbitrage_helper::after_buy_callback(&config, &ust_tax(), &me, side, asset, Uint256::from_u128(10), true, balance)
            .unwrap()
    };
    let res = sell(DexInfo::Astroport, luna(), 2000);
    assert_eq!(reported(&res), pairs(&[("astroport_sell_native", "uluna"), ("sell_amount", "2000")]));
    let res = sell(DexInfo::Astroport, AssetInfo::Token { contract_addr: "tok".to_string() }, 7);
    assert_eq!(reported(&res), pairs(&[("astroport_sell_cw20", "tok"), ("sell_amount", "7")]));
    let res = sell(DexInfo::Terraswap, luna(), 123456);
    assert_eq!(reported(&res), pairs(&[("terraswap_sell", "uluna"), ("sell_amount", "123456")]));
    let res = sell(DexInfo::Loop, luna(), 0);
    assert_eq!(reported(&res), pairs(&[("loop_sell", "uluna"), ("sell_amount", "0")]));
    assert_eq!(res.messages.len(), 2);
}

#[test]
fn an_arbitrage_reports_its_loan_purchase_and_profit() {
    let config = arb_config();
    let me = "helper".to_string();
    let res = arbitrage_helper::handle_arbitrage(
        &config,
        &me,
        DexInfo::Loop,
        DexInfo::Astroport,
        Uint256::from_u128(500),
        luna(),
    );
    assert_eq!(
        reported(&res),
        pairs(&[("action", "dex_arb_helper::ExecuteMsg::Arbitrage"), ("loan_asked", "500")])
    );
    let funds = vec![Coin { denom: "uusd".to_string(), amount: 500 }];
    let res = arbitrage_helper::initiate_arb_callback(
        &config,
        &ust_tax(),
        &me,
        &funds,
        DexInfo::Loop,
        DexInfo::Astroport,
        luna(),
        true,
    )
    .unwrap();
    assert_eq!(reported(&res), pairs(&[("loop_buy", "uluna")]));
    let mut state = arbitrage_helper::State { total_arbs: 0, total_ust_profit: Uint256::from_u128(0) };
    let res = arbitrage_helper::after_sell_callback(
        &config,
        &mut state,
        &ust_tax(),
        1_100_000,
        Uint256::from_u128(1_000_000),
    )
    .unwrap();
    assert_eq!(reported(&res), pairs(&[("return_ust_to_vault", "1100000"), ("profit", "94527")]));
}

#[test]
fn a_liquidation_reports_each_step() {
    let msg = white_whale::liquidation_helpers::mars_helper::InstantiateMsg {
        owner: "owner".to_string(),
        ust_arb_strategy: "vault".to_string(),
        red_bank_addr: "redbank".to_string(),
        astroport_router: "router".to_string(),
        stable_denom: "uusd".to_string(),
    };
    let (config, _state) = mars_helper::instantiate(msg, true).unwrap();
    let me = "helper".to_string();
    let res = mars_helper::handle_liquidate_red_bank_user(
        &config,
        &me,
        "borrower".to_string(),
        Uint256::from_u128(900),
        MarsAsset::Native { denom: "uusd".to_string() },
        MarsAsset::Native { denom: "uluna".to_string() },
        Uint256::from_u128(10),
    );
    assert_eq!(
        reported(&res),
        pairs(&[
            ("action", "redbank_helper::ExecuteMsg::LiquidatePosition"),
            ("user_address", "borrower"),
            ("loan_asked", "900"),
        ])
    );
    let funds = vec![Coin { denom: "uusd".to_string(), amount: 900 }];
    let res = mars_helper::initiate_liquidation_callback(
        &config,
        &ust_tax(),
        &me,
        &funds,
        "borrower".to_string(),
        MarsAsset::Cw20 { contract_addr: "mtoken".to_string() },
        MarsAsset::Native { denom: "uluna".to_string() },
        Uint256::from_u128(10),
        true,
    )
    .unwrap();
    assert_eq!(reported(&res), pairs(&[("Action", "Mars_Liquidation"), ("astroport_buy_cw20_for_ust", "mtoken")]));
    // a UST debt is not bought
    let res = mars_helper::initiate_liquidation_callback(
        &config,
        &ust_tax(),
        &me,
        &funds,
        "borrower".to_string(),
        MarsAsset::Native { denom: "uusd".to_string() },
        MarsAsset::Native { denom: "uluna".to_string() },
        Uint256::from_u128(10),
        true,
    )
    .unwrap();
    assert_eq!(reported(&res), pairs(&[("Action", "Mars_Liquidation")]));
    let res = mars_helper::after_debt_asset_callback(
        &config,
        &ust_tax(),
        &me,
        "borrower".to_string(),
        MarsAsset::Cw20 { contract_addr: "mtoken".to_string() },
        MarsAsset::Native { denom: "uluna".to_string() },
        Uint256::from_u128(900),
        Uint256::from_u128(10),
        true,
        300,
    )
    .unwrap();
    assert_eq!(
        reported(&res),
        pairs(&[
            ("Action", "Mars_Liquidation"),
            ("user_being_liquidated", "borrower"),
            ("liquidate_cw20_loan", "mtoken"),
        ])
    );
    let holding = mars_helper::AssetHolding { addr_valid: true, balance: 500 };
    let res = mars_helper::after_liquidation_callback(
        &config,
        &ust_tax(),
        &me,
        MarsAsset::Cw20 { contract_addr: "mtoken".to_string() },
        MarsAsset::Native { denom: "uluna".to_string() },
        Uint256::from_u128(900),
        Uint256::from_u128(10),
        holding,
        holding,
    )
    .unwrap();
    assert_eq!(
        reported(&res),
        pairs(&[
            ("Action", "Mars_Liquidation"),
            ("after_liquidation_sell_cw20_debt", "mtoken"),
            ("after_liquidation_sell_native_collateral", "uluna"),
        ])
    );
}

fn metadata(name: &str) -> Metadata {
    Metadata {
        image: None,
        image_data: None,
        external_url: None,
        description: None,
        name: Some(name.to_string()),
        attributes: None,
        background_color: None,
        animation_url: None,
        youtube_url: None,
    }
}

#[test]
fn a_registration_reports_the_collection() {
    let owner = "owner".to_string();
    let mut config = nft_minter::instantiate(
        white_whale::liquidation_helpers::nft_minter::InstantiateMsg { owner: owner.clone(), cw721_code_id: 7 },
        true,
    )
    .unwrap();
    let (tmp, res) = nft_minter::handle_initialize_liquidator(
        &config,
        &owner,
        &"minter".to_string(),
        "liq1".to_string(),
        metadata("Whale"),
        "WHL".to_string(),
        "ipfs://token".to_string(),
    )
    .unwrap();
    assert_eq!(
        reported(&res),
        pairs(&[("action", "add_liquidator"), ("liquidator_address", "liq1"), ("nft_symbol", "WHL")])
    );
    let res = nft_minter::reply(&mut config, Some(tmp), Some("nft1".to_string())).unwrap();
    assert_eq!(reported(&res), pairs(&[("nft_address", "nft1")]));
    let res = nft_minter::handle_update_metadata(
        &mut config,
        &owner,
        "liq1".to_string(),
        Some("liq2".to_string()),
        Some(metadata("Orca")),
        Some("ipfs://new".to_string()),
    )
    .unwrap();
    assert_eq!(
        reported(&res),
        pairs(&[
            ("action", "updated_Liquidator"),
            ("liquidator", "cur_liquidator"),
            ("new_liquidator", "liq2"),
            ("metadata_updated", "true"),
            ("updated_token_uri", "ipfs://new"),
        ])
    );
    let res = nft_minter::handle_mint_nft(&mut config, &"liq2".to_string(), 5, "user".to_string(), Uint256::from_u128(1))
        .unwrap();
    assert_eq!(reported(&res), pairs(&[("action", "mint_nft"), ("liquidator", "liq2")]));
    let res = nft_minter::handle_update_owner(&mut config, &owner, "new".to_string(), true).unwrap();
    assert_eq!(reported(&res), pairs(&[("action", "nft_minter::ExecuteMsg::UpdateOwner")]));
}

#[test]
fn staking_instantiation_answers_no_messages() {
    let msg = whale_lp_staking::InstantiateMsg {
        whale_token: "reward".to_string(),
        staking_token: "staking".to_string(),
        distribution_schedule: vec![],
    };
    let (_config, _state, res) = whale_lp_staking::instantiate(msg, 17, true).unwrap();
    assert_eq!(0, res.messages.len());
}
