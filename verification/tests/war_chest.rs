use white_whale::contracts::war_chest::{
    execute, instantiate, query_config, ConfigResponse, ExecuteMsg, InstantiateMsg, State,
};
use white_whale::contracts::whale_lp_staking;
use white_whale::cosmos::{CosmosMsg, Cw20ExecuteMsg, ExecutePayload, ReplyOn, WasmMsg};
use white_whale::error::ContractError;
use white_whale::math::Decimal;

fn setup(spend_limit: u128) -> State {
    let msg = InstantiateMsg {
        gov_contract: "gov".to_string(),
        whale_token: "whale".to_string(),
        spend_limit,
    };
    // the instantiation succeeds
    instantiate(msg, true).unwrap()
}

#[test]
fn tests_proper_initialization() {
    // the war chest
    let state = setup(1_000_000u128);
    let config = query_config(&state);
    assert_eq!("gov", config.gov_contract.as_str());
    assert_eq!("whale", config.whale_token.as_str());
    assert_eq!(1_000_000u128, config.spend_limit);

    // the WHALE LP staking contract, instantiated at the mock block height
    let msg = whale_lp_staking::InstantiateMsg {
        whale_token: "reward0000".to_string(),
        staking_token: "staking0000".to_string(),
        distribution_schedule: vec![(100, 200, 1000000u128)],
    };
    let (config, state, _res) = whale_lp_staking::instantiate(msg, 12345, true).unwrap();
    let config = whale_lp_staking::query_config(&config);
    assert_eq!(
        config,
        whale_lp_staking::ConfigResponse {
            whale_token: "reward0000".to_string(),
            staking_token: "staking0000".to_string(),
            distribution_schedule: vec![(100, 200, 1000000u128)],
        }
    );
    let state = whale_lp_staking::query_state(&state);
    assert_eq!(
        state,
        whale_lp_staking::StateResponse {
            last_distributed: 12345,
            total_bond_amount: 0,
            global_reward_index: Decimal::zero(),
        }
    );
}

#[test]
fn test_update_spend_limit() {
    let mut state = setup(1000000u128);
    let config = query_config(&state);
    assert_eq!("gov", config.gov_contract.as_str());
    assert_eq!("whale", config.whale_token.as_str());
    assert_eq!(1000000u128, config.spend_limit);

    let msg = ExecuteMsg::UpdateSpendLimit { spend_limit: 500000u128 };
    match execute(&mut state, &"addr0000".to_string(), msg.clone()) {
        Ok(_) => panic!("Must return error"),
        Err(ContractError::Unauthorized) => (),
        Err(_) => panic!("Unknown error"),
    }

    let _res = execute(&mut state, &"gov".to_string(), msg).unwrap();
    let config = query_config(&state);
    assert_eq!(
        config,
        ConfigResponse {
            gov_contract: "gov".to_string(),
            whale_token: "whale".to_string(),
            spend_limit: 500000u128,
        }
    );
}

#[test]
fn test_spend() {
    let mut state = setup(1000000u128);

    // permission failed
    let msg = ExecuteMsg::Spend { recipient: "addr0000".to_string(), amount: 1000000u128 };
    match execute(&mut state, &"addr0000".to_string(), msg) {
        Ok(_) => panic!("Must return error"),
        Err(ContractError::Unauthorized) => (),
        Err(_) => panic!("Unknown error"),
    }

    // failed due to spend limit
    let msg = ExecuteMsg::Spend { recipient: "addr0000".to_string(), amount: 2000000u128 };
    match execute(&mut state, &"gov".to_string(), msg) {
        Ok(_) => panic!("Must return error"),
        Err(ContractError::TooMuchSpend) => (),
        Err(_) => panic!("Unknown error"),
    }

    let msg = ExecuteMsg::Spend { recipient: "addr0000".to_string(), amount: 1000000u128 };
    let res = execute(&mut state, &"gov".to_string(), msg).unwrap();
    assert_eq!(res.messages.len(), 1);
    let sub = &res.messages[0];
    assert_eq!(sub.id, 0);
    assert_eq!(sub.reply_on, ReplyOn::Never);
    assert_eq!(
        sub.msg,
        CosmosMsg::Wasm(WasmMsg::Execute {
            contract_addr: "whale".to_string(),
            funds: vec![],
            msg: ExecutePayload::Cw20(Cw20ExecuteMsg::Transfer {
                recipient: "addr0000".to_string(),
                amount: 1000000u128,
            }),
        })
    );
}
