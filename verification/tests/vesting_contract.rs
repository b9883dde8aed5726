use white_whale::contracts::test_contract;
use white_whale::contracts::vesting_contract::{
    handle, init, query, HandleMsg, InitMsg, QueryMsg, QueryResponse, State,
};

/// The block height of the chain's mock environment.
const MOCK_HEIGHT: u64 = 12345;

fn init_grant(vesting_schedule: u64) -> State {
    let msg = InitMsg {
        recipient: "test1".to_string(),
        token_contract: "test2".to_string(),
        vesting_schedule,
    };
    init(msg, true).unwrap().0
}

#[test]
fn contract_proper_initialization() {
    // the vesting grant
    let recipient = "test1".to_string();
    let msg = InitMsg { recipient: recipient.clone(), token_contract: "test2".to_string(), vesting_schedule: 1u64 };
    let (state, res) = init(msg, true).unwrap();
    assert_eq!(0, res.messages.len());
    match query(&state, QueryMsg::Recipient) {
        QueryResponse::Recipient(value) => assert_eq!(recipient, value.recipient),
        _ => panic!("expected the recipient"),
    }

    // the peg arbitrage test contract
    let msg = test_contract::InitMsg { pool_address: "test pool".to_string() };
    let (_state, res) = test_contract::init("creator".to_string(), msg, true).unwrap();
    assert_eq!(0, res.messages.len());
}

#[test]
fn claim_successfully() {
    let state = init_grant(1u64);
    // beneficiary can release it
    let msg = HandleMsg::Claim { amount: 100u128 };
    let res = handle(&state, &"test1".to_string(), MOCK_HEIGHT, msg);
    match res {
        Ok(_) => {}
        Err(_) => panic!("expected successful claim"),
    };
}

#[test]
fn claim_fails_if_vesting_time_did_not_expire() {
    let state = init_grant(12346u64);
    let msg = HandleMsg::Claim { amount: 100u128 };
    let res = handle(&state, &"test1".to_string(), MOCK_HEIGHT, msg);
    match res {
        Ok(_) => panic!("expected error"),
        Err(_) => {}
    };
}

#[test]
fn claim_fails_for_unauthorized_accounts() {
    let state = init_grant(1u64);
    let msg = HandleMsg::Claim { amount: 100u128 };
    let res = handle(&state, &"test3".to_string(), MOCK_HEIGHT, msg);
    match res {
        Ok(_) => panic!("expected error"),
        Err(_) => {}
    };
}
