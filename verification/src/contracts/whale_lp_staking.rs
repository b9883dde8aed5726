//! WHALE LP staking: stakers bond liquidity tokens and earn WHALE along a distribution
//! schedule.
use vstd::prelude::*;

use crate::cosmos::Response;
use crate::error::ContractError;
use crate::math::Decimal;

verus! {

#[derive(Clone, Debug, PartialEq)]
pub struct InstantiateMsg {
    pub whale_token: String,
    pub staking_token: String,
    /// `(start block, end block, WHALE distributed)` periods.
    pub distribution_schedule: Vec<(u64, u64, u128)>,
}

#[derive(Clone, Copy, Debug, PartialEq, Eq, Structural)]
pub enum QueryMsg {
    Config,
    State { block_height: Option<u64> },
}

#[derive(Clone, Debug, PartialEq)]
pub struct ConfigResponse {
    pub whale_token: String,
    pub staking_token: String,
    pub distribution_schedule: Vec<(u64, u64, u128)>,
}

#[derive(Clone, Copy, Debug, PartialEq, Eq, Structural)]
pub struct StateResponse {
    pub last_distributed: u64,
    pub total_bond_amount: u128,
    pub global_reward_index: Decimal,
}

#[derive(Clone, Debug, PartialEq)]
pub struct Config {
    pub whale_token: String,
    pub staking_token: String,
    pub distribution_schedule: Vec<(u64, u64, u128)>,
}

/// The distribution so far: the block up to which rewards were distributed, the tokens
/// bonded, and the rewards per bonded token.
#[derive(Clone, Copy, Debug, PartialEq, Eq, Structural)]
pub struct State {
    pub last_distributed: u64,
    pub total_bond_amount: u128,
    pub global_reward_index: Decimal,
}

/// A copy of a distribution schedule.
fn copy_schedule(schedule: &Vec<(u64, u64, u128)>) -> (r: Vec<(u64, u64, u128)>)
    ensures
        r@ == schedule@,
{
    let mut out: Vec<(u64, u64, u128)> = Vec::new();
    let mut i: usize = 0;
    while i < schedule.len()
        invariant
            i <= schedule@.len(),
            out@ == schedule@.subrange(0, i as int),
        decreases schedule@.len() - i,
    {
        out.push(schedule[i]);
        i = i + 1;
        assert(out@ =~= schedule@.subrange(0, i as int));
    }
    assert(schedule@.subrange(0, schedule@.len() as int) =~= schedule@);
    out
}

/// The configuration and state at instantiation: nothing bonded, and distribution
/// counted from the current block. `addresses_valid` is the chain's verdict on the two
/// token addresses.
pub fn instantiate(
    msg: InstantiateMsg,
    block_height: u64,
    addresses_valid: bool,
) -> (r: Result<(Config, State, Response), ContractError>)
    ensures
        !addresses_valid ==> r == Err::<(Config, State, Response), ContractError>(ContractError::InvalidAddress),
        addresses_valid ==> (r matches Ok((config, state, resp)) && config == (Config {
            whale_token: msg.whale_token,
            staking_token: msg.staking_token,
            distribution_schedule: msg.distribution_schedule,
        }) && state == (State { last_distributed: block_height, total_bond_amount: 0, global_reward_index: Decimal { atomics: 0 } })
            && resp.messages@.len() == 0),
{
    if !addresses_valid {
        return Err(ContractError::InvalidAddress);
    }
    let config = Config {
        whale_token: msg.whale_token,
        staking_token: msg.staking_token,
        distribution_schedule: msg.distribution_schedule,
    };
    let state = State { last_distributed: block_height, total_bond_amount: 0, global_reward_index: Decimal::zero() };
    Ok((config, state, Response::new()))
}

/// The configuration, as the query answers it.
pub fn query_config(config: &Config) -> (r: ConfigResponse)
    ensures
        r.whale_token == config.whale_token,
        r.staking_token == config.staking_token,
        r.distribution_schedule@ == config.distribution_schedule@,
{
    ConfigResponse {
        whale_token: config.whale_token.clone(),
        staking_token: config.staking_token.clone(),
        distribution_schedule: copy_schedule(&config.distribution_schedule),
    }
}

/// The stored state, as the query answers it.
pub fn query_state(state: &State) -> (r: StateResponse)
    ensures
        r == (StateResponse {
            last_distributed: state.last_distributed,
            total_bond_amount: state.total_bond_amount,
            global_reward_index: state.global_reward_index,
        }),
{
    StateResponse {
        last_distributed: state.last_distributed,
        total_bond_amount: state.total_bond_amount,
        global_reward_index: state.global_reward_index,
    }
}

} // verus!
