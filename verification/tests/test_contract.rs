use white_whale::asset::Coin;
use white_whale::contracts::test_contract::{handle, init, HandleMsg, InitMsg};
use white_whale::cosmos::{CosmosMsg, TerraRoute};

fn setup() -> white_whale::contracts::test_contract::State {
    let msg = InitMsg { pool_address: "test pool".to_string() };
    init("creator".to_string(), msg, true).unwrap().0
}

#[test]
fn when_given_a_below_peg_msg_then_handle_returns_first_a_mint_then_a_terraswap_msg() {
    let state = setup();
    let msg = HandleMsg::BelowPeg {
        amount: Coin { denom: "uusd".to_string(), amount: 1000000u128 },
        luna_price: Coin { denom: "uusd".to_string(), amount: 1000000u128 },
    };
    let res = handle(&state, "creator".to_string(), msg);
    assert_eq!(2, res.messages.len());
    match &res.messages[0].msg {
        CosmosMsg::Bank(_bank_msg) => assert_eq!(true, false),
        CosmosMsg::Custom(t) => assert_eq!(TerraRoute::Market, t.route),
        CosmosMsg::Wasm(_wasm_msg) => assert_eq!(true, false),
    }
    match &res.messages[1].msg {
        CosmosMsg::Bank(_bank_msg) => assert_eq!(true, false),
        CosmosMsg::Custom(_t) => assert_eq!(true, false),
        CosmosMsg::Wasm(_wasm_msg) => {}
    }
}

#[test]
fn when_given_an_above_peg_msg_then_handle_returns_first_a_terraswap_then_a_mint_msg() {
    let state = setup();
    let msg = HandleMsg::AbovePeg {
        amount: Coin { denom: "uusd".to_string(), amount: 1000000u128 },
        luna_price: Coin { denom: "uusd".to_string(), amount: 1000000u128 },
    };
    let res = handle(&state, "creator".to_string(), msg);
    assert_eq!(2, res.messages.len());
    match &res.messages[0].msg {
        CosmosMsg::Bank(_bank_msg) => assert_eq!(true, false),
        CosmosMsg::Custom(_t) => assert_eq!(true, false),
        CosmosMsg::Wasm(_wasm_msg) => {}
    }
    match &res.messages[1].msg {
        CosmosMsg::Bank(_bank_msg) => assert_eq!(true, false),
        CosmosMsg::Custom(t) => assert_eq!(TerraRoute::Market, t.route),
        CosmosMsg::Wasm(_wasm_msg) => assert_eq!(true, false),
    }
}
