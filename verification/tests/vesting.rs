use white_whale::contracts::vesting::{
    handle_create_allocations, handle_transfer_ownership, handle_withdraw, instantiate, query_allocation,
    query_state, AllocationInfo, Config, InstantiateMsg, Schedule, State, UserAllocation,
};
use white_whale::cosmos::{CheckedAddr, CosmosMsg, Cw20ExecuteMsg, ExecutePayload, WasmMsg};
use white_whale::error::ContractError;

#[test]
fn deposit_then_withdraw_keeps_the_books() {
    let config = config();
    let mut state: Option<State> = None;
    let mut allocations: Vec<UserAllocation> = vec![];
    handle_create_allocations(
        &config,
        &mut state,
        &mut allocations,
        addr("owner"),
        "whale".to_string(),
        250,
        vec![(addr("alice"), grant(250))],
    )
    .unwrap();
    handle_withdraw(&config, &mut state, &mut allocations, &"alice".to_string(), 75).unwrap();
    let s = state.unwrap();
    assert_eq!(s.total_whale_deposited, 250);
    assert_eq!(s.remaining_whale_tokens, 175);
    assert_eq!(allocations[0].info.withdrawn_amount + s.remaining_whale_tokens, s.total_whale_deposited);
}

fn addr(a: &str) -> CheckedAddr {
    CheckedAddr { addr: a.to_string(), valid: true }
}

fn grant(total: u128) -> AllocationInfo {
    AllocationInfo { total_amount: total, withdrawn_amount: 0, vest_schedule: None }
}

fn config() -> Config {
    let schedule = Schedule { start_time: 0, cliff: 100, duration: 1000 };
    instantiate(
        InstantiateMsg { owner: "owner".to_string(), whale_token: "whale".to_string(), default_unlock_schedule: schedule },
        true,
    )
    .unwrap()
}

#[test]
fn allocations_are_created_for_the_exact_deposit() {
    let config = config();
    let mut allocations: Vec<UserAllocation> = vec![];
    let mut state: Option<State> = None;
    let res = handle_create_allocations(
        &config,
        &mut state,
        &mut allocations,
        addr("owner"),
        "whale".to_string(),
        300,
        vec![(addr("alice"), grant(100)), (addr("bob"), grant(200))],
    );
    assert!(res.is_ok());
    // the deposit is recorded as deposited and as still available
    assert_eq!(state, Some(State { total_whale_deposited: 300, remaining_whale_tokens: 300 }));
    let totals = query_state(&state).unwrap();
    assert_eq!(totals.total_whale_deposited, 300);
    assert_eq!(totals.remaining_whale_tokens, 300);
    assert_eq!(allocations.len(), 2);
    assert_eq!(allocations[0].user, "alice");
    assert_eq!(allocations[1].info.total_amount, 200);
    let a = query_allocation(&allocations, addr("bob")).unwrap();
    assert_eq!(a.total_amount, 200);
    assert_eq!(query_allocation(&allocations, addr("carol")), Err(ContractError::NotFound));
    assert_eq!(
        query_allocation(&allocations, CheckedAddr { addr: "x".to_string(), valid: false }),
        Err(ContractError::InvalidAddress)
    );
}

#[test]
fn allocation_checks() {
    let config = config();
    let mut allocations: Vec<UserAllocation> = vec![];
    let mut state = Some(State { total_whale_deposited: 50, remaining_whale_tokens: 20 });
    let new = || vec![(addr("alice"), grant(100))];
    assert_eq!(
        handle_create_allocations(&config, &mut state, &mut allocations, addr("stranger"), "whale".to_string(), 100, new()),
        Err(ContractError::OnlyOwnerCanCreateAllocations)
    );
    assert_eq!(
        handle_create_allocations(&config, &mut state, &mut allocations, addr("owner"), "other".to_string(), 100, new()),
        Err(ContractError::OnlyWhaleToken)
    );
    assert_eq!(
        handle_create_allocations(&config, &mut state, &mut allocations, addr("owner"), "whale".to_string(), 99, new()),
        Err(ContractError::DepositAmountMismatch)
    );
    // a user listed twice
    let twice = vec![(addr("alice"), grant(100)), (addr("alice"), grant(100))];
    assert_eq!(
        handle_create_allocations(&config, &mut state, &mut allocations, addr("owner"), "whale".to_string(), 200, twice),
        Err(ContractError::AllocationExists)
    );
    // an invalid user address, after a valid one: nothing is recorded
    let invalid = vec![(addr("bob"), grant(100)), (CheckedAddr { addr: "?".to_string(), valid: false }, grant(1))];
    assert_eq!(
        handle_create_allocations(&config, &mut state, &mut allocations, addr("owner"), "whale".to_string(), 101, invalid),
        Err(ContractError::InvalidAddress)
    );
    assert!(allocations.is_empty());
    // a refused deposit leaves the totals alone
    assert_eq!(state, Some(State { total_whale_deposited: 50, remaining_whale_tokens: 20 }));
    // a user that already has an allocation
    handle_create_allocations(&config, &mut state, &mut allocations, addr("owner"), "whale".to_string(), 100, new()).unwrap();
    assert_eq!(
        handle_create_allocations(&config, &mut state, &mut allocations, addr("owner"), "whale".to_string(), 100, new()),
        Err(ContractError::AllocationExists)
    );
    assert_eq!(allocations.len(), 1);
    assert_eq!(state, Some(State { total_whale_deposited: 150, remaining_whale_tokens: 120 }));
}

#[test]
fn withdrawals() {
    let config = config();
    let mut allocations = vec![UserAllocation { user: "alice".to_string(), info: grant(100) }];
    // before any deposit there are no totals
    let mut none: Option<State> = None;
    assert_eq!(handle_withdraw(&config, &mut none, &mut allocations, &"alice".to_string(), 10), Err(ContractError::NotFound));
    assert_eq!(query_state(&none), Err(ContractError::NotFound));

    let mut state = Some(State { total_whale_deposited: 100, remaining_whale_tokens: 100 });
    assert_eq!(handle_withdraw(&config, &mut state, &mut allocations, &"bob".to_string(), 10), Err(ContractError::NotFound));
    assert_eq!(
        handle_withdraw(&config, &mut state, &mut allocations, &"alice".to_string(), 0),
        Err(ContractError::NoUnlockedWhale)
    );
    let res = handle_withdraw(&config, &mut state, &mut allocations, &"alice".to_string(), 40).unwrap();
    assert_eq!(
        res.messages[0].msg,
        CosmosMsg::Wasm(WasmMsg::Execute {
            contract_addr: "whale".to_string(),
            msg: ExecutePayload::Cw20(Cw20ExecuteMsg::Transfer { recipient: "alice".to_string(), amount: 40 }),
            funds: vec![],
        })
    );
    assert_eq!(allocations[0].info.withdrawn_amount, 40);
    let reported: Vec<(&str, &str)> = res.attributes.iter().map(|a| (a.key.as_str(), a.value.as_str())).collect();
    assert_eq!(reported, vec![("action", "withdraw"), ("user", "alice"), ("withdrawn_amount", "40")]);
    assert_eq!(state.unwrap().remaining_whale_tokens, 60);
    // what was withdrawn plus what remains is what was deposited
    assert_eq!(allocations[0].info.withdrawn_amount + state.unwrap().remaining_whale_tokens, 100);
    // a fully withdrawn allocation has nothing more
    let mut done = vec![UserAllocation {
        user: "carol".to_string(),
        info: AllocationInfo { total_amount: 5, withdrawn_amount: 5, vest_schedule: None },
    }];
    assert_eq!(
        handle_withdraw(&config, &mut state, &mut done, &"carol".to_string(), 1),
        Err(ContractError::NoUnlockedWhale)
    );
}

#[test]
fn ownership_transfer() {
    let mut config = config();
    assert_eq!(
        handle_transfer_ownership(&mut config, &"stranger".to_string(), addr("x")),
        Err(ContractError::Unauthorized)
    );
    assert_eq!(
        handle_transfer_ownership(&mut config, &"owner".to_string(), CheckedAddr { addr: "x".to_string(), valid: false }),
        Err(ContractError::InvalidAddress)
    );
    handle_transfer_ownership(&mut config, &"owner".to_string(), addr("new")).unwrap();
    assert_eq!(config.owner, "new");
}
