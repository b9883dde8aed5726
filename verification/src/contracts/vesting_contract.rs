//! A single vesting grant: once the vesting height has passed, the recipient may claim
//! tokens of the vested CW20 contract.
use vstd::prelude::*;

use crate::cosmos::{Response, cw20_transfer_msg, is_cw20_transfer, plain};
use crate::error::ContractError;

verus! {

#[derive(Clone, Debug, PartialEq)]
pub struct InitMsg {
    pub recipient: String,
    pub token_contract: String,
    pub vesting_schedule: u64,
}

#[derive(Clone, Copy, Debug, PartialEq, Eq, Structural)]
pub enum HandleMsg {
    /// Transfers `amount` vested tokens to the recipient.
    Claim { amount: u128 },
}

#[derive(Clone, Copy, Debug, PartialEq, Eq, Structural)]
pub enum QueryMsg {
    Recipient,
    VestingSchedule,
}

#[derive(Clone, Debug, PartialEq)]
pub struct RecipientResponse {
    pub recipient: String,
}

#[derive(Clone, Copy, Debug, PartialEq, Eq, Structural)]
pub struct VestingScheduleResponse {
    pub vesting_schedule: u64,
}

/// The answer to a query.
#[derive(Clone, Debug, PartialEq)]
pub enum QueryResponse {
    Recipient(RecipientResponse),
    VestingSchedule(VestingScheduleResponse),
}

/// The grant: who may claim, the token, and the block height after which it vests.
#[derive(Clone, Debug, PartialEq)]
pub struct State {
    pub recipient: String,
    pub token_contract: String,
    pub vesting_schedule: u64,
}

/// The grant at instantiation, with an empty response. `addresses_valid` is the chain's
/// verdict on the two addresses.
pub fn init(msg: InitMsg, addresses_valid: bool) -> (r: Result<(State, Response), ContractError>)
    ensures
        !addresses_valid ==> r == Err::<(State, Response), ContractError>(ContractError::InvalidAddress),
        addresses_valid ==> (r matches Ok((state, resp)) && state == (State {
            recipient: msg.recipient,
            token_contract: msg.token_contract,
            vesting_schedule: msg.vesting_schedule,
        }) && resp.messages@.len() == 0),
{
    if !addresses_valid {
        return Err(ContractError::InvalidAddress);
    }
    let state = State {
        recipient: msg.recipient,
        token_contract: msg.token_contract,
        vesting_schedule: msg.vesting_schedule,
    };
    Ok((state, Response::new()))
}

/// Whether `sender` may claim at `block_height`: the recipient may, once the block is above
/// the vesting height.
pub open spec fn claimable(state: State, sender: Seq<char>, block_height: u64) -> bool {
    sender == state.recipient@ && block_height > state.vesting_schedule
}

/// Once the grant can be claimed, it can be claimed at every later block; before the
/// vesting height no one can claim it.
pub proof fn law_claim_stays_open(state: State, sender: Seq<char>, h1: u64, h2: u64)
    ensures
        h1 <= h2 && claimable(state, sender, h1) ==> claimable(state, sender, h2),
        h1 <= state.vesting_schedule ==> !claimable(state, sender, h1),
{
}

/// Transfers `amount` of the token to the recipient; only the recipient may claim, and only
/// at a block above the vesting height. Before it, the error gives the blocks remaining.
pub fn try_claim(state: &State, sender: &String, block_height: u64, amount: u128) -> (r: Result<Response, ContractError>)
    ensures
        sender@ != state.recipient@ ==> r == Err::<Response, ContractError>(ContractError::Unauthorized),
        sender@ == state.recipient@ && block_height <= state.vesting_schedule ==> r == Err::<Response, ContractError>(
            ContractError::NotVestedYet { remaining_blocks: (state.vesting_schedule - block_height) as u64 },
        ),
        r is Ok <==> claimable(*state, sender@, block_height),
        r matches Ok(resp) ==> resp.messages@.len() == 1 && resp.messages@[0] == plain(resp.messages@[0].msg)
            && is_cw20_transfer(resp.messages@[0].msg, state.token_contract, state.recipient, amount),
{
    if *sender != state.recipient {
        return Err(ContractError::Unauthorized);
    }
    if block_height > state.vesting_schedule {
        Ok(Response::new().add_message(cw20_transfer_msg(state.token_contract.clone(), state.recipient.clone(), amount)))
    } else {
        let remaining = state.vesting_schedule - block_height;
        Err(ContractError::NotVestedYet { remaining_blocks: remaining })
    }
}

/// Runs a handle message.
pub fn handle(state: &State, sender: &String, block_height: u64, msg: HandleMsg) -> (r: Result<Response, ContractError>)
    ensures
        match msg {
            HandleMsg::Claim { amount } => {
                &&& sender@ != state.recipient@ ==> r == Err::<Response, ContractError>(ContractError::Unauthorized)
                &&& sender@ == state.recipient@ && block_height <= state.vesting_schedule ==> r == Err::<
                    Response,
                    ContractError,
                >(ContractError::NotVestedYet { remaining_blocks: (state.vesting_schedule - block_height) as u64 })
                &&& r is Ok <==> claimable(*state, sender@, block_height)
                &&& r matches Ok(resp) ==> resp.messages@.len() == 1 && resp.messages@[0] == plain(resp.messages@[0].msg)
                    && is_cw20_transfer(resp.messages@[0].msg, state.token_contract, state.recipient, amount)
            },
        },
{
    match msg {
        HandleMsg::Claim { amount } => try_claim(state, sender, block_height, amount),
    }
}

pub fn try_query_recipient(state: &State) -> (r: RecipientResponse)
    ensures
        r.recipient == state.recipient,
{
    RecipientResponse { recipient: state.recipient.clone() }
}

pub fn try_query_vesting_schedule(state: &State) -> (r: VestingScheduleResponse)
    ensures
        r.vesting_schedule == state.vesting_schedule,
{
    VestingScheduleResponse { vesting_schedule: state.vesting_schedule }
}

/// Answers a query.
pub fn query(state: &State, msg: QueryMsg) -> (r: QueryResponse)
    ensures
        msg == QueryMsg::Recipient ==> r == QueryResponse::Recipient(RecipientResponse { recipient: state.recipient }),
        msg == QueryMsg::VestingSchedule ==> r == QueryResponse::VestingSchedule(
            VestingScheduleResponse { vesting_schedule: state.vesting_schedule },
        ),
{
    match msg {
        QueryMsg::Recipient => QueryResponse::Recipient(try_query_recipient(state)),
        QueryMsg::VestingSchedule => QueryResponse::VestingSchedule(try_query_vesting_schedule(state)),
    }
}

} // verus!
