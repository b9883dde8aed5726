use white_whale::asset::{Asset, AssetInfo, Coin};
use white_whale::contracts::stablecoin_vault::{create_assert_limit_order_msg, from_micro, Message};
use white_whale::contracts::test_contract::{to_luna, try_send_funds};
use white_whale::contracts::war_chest::{self, ExecuteMsg, InstantiateMsg};
use white_whale::contracts::war_chest::vault_assets::{
    lp_holdings_value, lp_value, Proxy, StepAnswer, Valuation, ValueRef, VaultAsset,
};
use white_whale::contracts::vesting_contract::{self, HandleMsg, InitMsg};
use white_whale::cosmos::{BankMsg, CosmosMsg};
use white_whale::error::ContractError;
use white_whale::math::Decimal;
use white_whale::white_whale::memory::Memory;
use white_whale::white_whale::terraswap::PoolResponse;
use white_whale::white_whale::treasury::dapp_base::commands::DappBase;
use white_whale::white_whale::treasury::dapp_base::state::{AddressBook, BaseState};

#[test]
fn spend_limit_follows_its_updates() {
    let mut state = war_chest::instantiate(
        InstantiateMsg { gov_contract: "gov".to_string(), whale_token: "whale".to_string(), spend_limit: 10 },
        true,
    )
    .unwrap();
    let gov = "gov".to_string();
    war_chest::execute(&mut state, &gov, ExecuteMsg::UpdateSpendLimit { spend_limit: 50 }).unwrap();
    assert!(war_chest::execute(&mut state, &gov, ExecuteMsg::Spend { recipient: "a".to_string(), amount: 50 }).is_ok());
    assert_eq!(
        war_chest::execute(&mut state, &gov, ExecuteMsg::Spend { recipient: "a".to_string(), amount: 51 }),
        Err(ContractError::TooMuchSpend)
    );
    assert_eq!(
        war_chest::instantiate(
            InstantiateMsg { gov_contract: "g".to_string(), whale_token: "w".to_string(), spend_limit: 1 },
            false
        ),
        Err(ContractError::InvalidAddress)
    );
}

#[test]
fn a_claim_stays_open() {
    let (state, _res) = vesting_contract::init(
        InitMsg { recipient: "r".to_string(), token_contract: "t".to_string(), vesting_schedule: 100 },
        true,
    )
    .unwrap();
    let r = "r".to_string();
    assert_eq!(
        vesting_contract::handle(&state, &r, 100, HandleMsg::Claim { amount: 1 }),
        Err(ContractError::NotVestedYet { remaining_blocks: 0 })
    );
    assert_eq!(
        vesting_contract::handle(&state, &r, 40, HandleMsg::Claim { amount: 1 }),
        Err(ContractError::NotVestedYet { remaining_blocks: 60 })
    );
    for h in [101u64, 102, 1000, u64::MAX] {
        assert!(vesting_contract::handle(&state, &r, h, HandleMsg::Claim { amount: 1 }).is_ok());
    }
    assert_eq!(
        vesting_contract::handle(&state, &"x".to_string(), 1000, HandleMsg::Claim { amount: 1 }),
        Err(ContractError::Unauthorized)
    );
}

#[test]
fn luna_conversions() {
    let c = to_luna(Coin { denom: "uusd".to_string(), amount: 1_000 }, Coin { denom: "uusd".to_string(), amount: 3 });
    assert_eq!(c.amount, 333);
    assert_eq!(c.denom, "uusd");
    assert_eq!(from_micro(2_500_000).atomics, 2_500_000_000_000_000_000u128);
    let m = create_assert_limit_order_msg(
        Coin { denom: "uluna".to_string(), amount: 5 },
        "uusd".to_string(),
        1_000,
    );
    assert_eq!(
        m,
        Message::AssertLimitOrder {
            offer_coin: Coin { denom: "uluna".to_string(), amount: 5 },
            ask_denom: "uusd".to_string(),
            minimum_receive: 990,
        }
    );
    let res = try_send_funds("me".to_string(), Coin { denom: "uusd".to_string(), amount: 9 });
    assert_eq!(
        res.messages[0].msg,
        CosmosMsg::Bank(BankMsg::Send {
            to_address: "me".to_string(),
            amount: vec![Coin { denom: "uusd".to_string(), amount: 9 }],
        })
    );
}

fn native(denom: &str, amount: u128) -> Asset {
    Asset { info: AssetInfo::NativeToken { denom: denom.to_string() }, amount }
}

#[test]
fn war_chest_valuation() {
    let base = VaultAsset { asset: native("uusd", 70), value_reference: None };
    assert_eq!(base.value(), Ok(Valuation::Value(70)));
    let pooled = VaultAsset {
        asset: native("uluna", 10),
        value_reference: Some(ValueRef::Pool { address: "pair".to_string() }),
    };
    assert_eq!(pooled.value(), Ok(Valuation::FromPool { address: "pair".to_string() }));
    let pool = PoolResponse { assets: [native("uusd", 500), native("uluna", 50)], total_share: 10 };
    // 10 Luna at 10 UST each
    assert_eq!(pooled.asset_value(&pool), 100);
    let proxy = Proxy::new(AssetInfo::NativeToken { denom: "uluna".to_string() }, Decimal::one(), None, true).unwrap();
    let native_lp = VaultAsset {
        asset: native("ulp", 4),
        value_reference: Some(ValueRef::Liquidity { pool_address: "pool".to_string(), proxy }),
    };
    assert_eq!(native_lp.value(), Err(ContractError::NativeLpToken));
    assert_eq!(
        Proxy::new(AssetInfo::Token { contract_addr: "bad".to_string() }, Decimal::one(), None, false),
        Err(ContractError::InvalidAddress)
    );
    // 25 shares of 10 own two and a half times each reserve
    let (a, b) = lp_value(&pool, 25, Some(base.clone()), Some(pooled.clone())).unwrap();
    assert_eq!(a.asset.amount, 1250);
    assert_eq!(b.asset.amount, 125);
    assert_eq!(lp_value(&pool, 25, Some(base), None), Err(ContractError::NotFound));
}

#[test]
fn half_of_the_liquidity_owns_half_of_each_reserve() {
    let tok = Asset { info: AssetInfo::Token { contract_addr: "tok".to_string() }, amount: 2000 };
    let pool = PoolResponse { assets: [native("uusd", 1000), tok.clone()], total_share: 100 };
    let uusd = VaultAsset { asset: native("uusd", 0), value_reference: None };
    let token = VaultAsset { asset: Asset { amount: 0, ..tok }, value_reference: None };
    let (a, b) = lp_value(&pool, 50, Some(uusd), Some(token)).unwrap();
    assert_eq!(a.asset.amount, 500);
    assert_eq!(b.asset.amount, 1000);
    let total = match (a.value(), b.value()) {
        (Ok(Valuation::Value(x)), Ok(Valuation::Value(y))) => x + y,
        other => panic!("unexpected valuation {:?}", other),
    };
    assert_eq!(total, 1500);
    // a holding below one whole share still owns its fraction, rounded down
    let small = PoolResponse { assets: [native("uusd", 1000), native("uluna", 3)], total_share: 100 };
    let x = VaultAsset { asset: native("uusd", 0), value_reference: None };
    let y = VaultAsset { asset: native("uluna", 0), value_reference: None };
    let (a, b) = lp_value(&small, 1, Some(x), Some(y)).unwrap();
    assert_eq!(a.asset.amount, 10);
    assert_eq!(b.asset.amount, 0);
}

#[test]
fn liquidity_holdings_are_worth_the_sum_of_what_they_own() {
    let tok = Asset { info: AssetInfo::Token { contract_addr: "tok".to_string() }, amount: 2000 };
    let pool = PoolResponse { assets: [native("uusd", 1000), tok.clone()], total_share: 100 };
    let uusd = VaultAsset { asset: native("uusd", 0), value_reference: None };
    let token = VaultAsset { asset: Asset { amount: 0, ..tok.clone() }, value_reference: None };
    let nothing = StepAnswer::Nothing;
    assert_eq!(
        lp_holdings_value(&pool, 50, Some(uusd.clone()), Some(token.clone()), &nothing, &nothing),
        Ok(1500)
    );
    assert_eq!(
        lp_holdings_value(&pool, 50, Some(uusd.clone()), None, &nothing, &nothing),
        Err(ContractError::NotFound)
    );
    // the token priced by its pair with UST: 2 UST per token
    let priced = VaultAsset {
        asset: Asset { amount: 0, ..tok.clone() },
        value_reference: Some(ValueRef::Pool { address: "tok_pair".to_string() }),
    };
    let pair = PoolResponse { assets: [native("uusd", 400), Asset { amount: 200, ..tok }], total_share: 10 };
    assert_eq!(
        lp_holdings_value(&pool, 50, Some(uusd.clone()), Some(priced.clone()), &nothing, &StepAnswer::Pool(pair)),
        Ok(500 + 2000)
    );
    // the pair's pool could not be read
    assert_eq!(
        lp_holdings_value(&pool, 50, Some(uusd), Some(priced), &nothing, &nothing),
        Err(ContractError::QueryFailed)
    );
}

#[test]
fn address_book_reads_what_was_written() {
    let state = BaseState {
        treasury_address: "treasury".to_string(),
        trader: "trader".to_string(),
        memory: Memory { address: "memory".to_string() },
    };
    let mut dapp = DappBase { state, admin: Some("admin".to_string()), address_book: AddressBook::new() };
    let admin = "admin".to_string();
    dapp.update_address_book(
        &admin,
        vec![("luna".to_string(), "uluna".to_string()), ("luna".to_string(), "second".to_string())],
        vec![],
    )
    .unwrap();
    assert_eq!(dapp.address_book.get(&"luna".to_string()), Some("uluna".to_string()));
    // an entry is kept by a later addition of the same name
    dapp.update_address_book(&admin, vec![("luna".to_string(), "other".to_string())], vec![]).unwrap();
    assert_eq!(dapp.address_book.get(&"luna".to_string()), Some("uluna".to_string()));
    // a removed name is gone
    dapp.update_address_book(&admin, vec![], vec!["luna".to_string()]).unwrap();
    assert_eq!(dapp.address_book.get(&"luna".to_string()), None);
    assert_eq!(
        dapp.update_address_book(&"stranger".to_string(), vec![], vec![]),
        Err(ContractError::Unauthorized)
    );
}
