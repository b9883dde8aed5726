//! Deposits of UST into the Anchor money market.
use vstd::prelude::*;

use crate::asset::{Coin, ust_denom_string};
use crate::cosmos::{CosmosMsg, ExecutePayload, ReplyOn, Response, SubMsg, execute_msg_with_coin, is_execute, payload_of, plain};
use crate::error::ContractError;

verus! {

/// What the Anchor money market executes.
#[derive(Clone, Debug, PartialEq)]
pub enum AnchorMsg {
    DepositStable,
    RedeemStable,
    Send { contract: String, amount: u128, msg: Vec<u8> },
}

/// `m` deposits `amount` into the money market at `market`.
pub open spec fn is_anchor_deposit(m: CosmosMsg, market: String, amount: Coin) -> bool {
    &&& is_execute(m, market, seq![amount])
    &&& payload_of(m) == ExecutePayload::Anchor(AnchorMsg::DepositStable)
}

fn deposit_msg(anchor_money_market_address: String, amount: Coin) -> (m: CosmosMsg)
    ensures
        is_anchor_deposit(m, anchor_money_market_address, amount),
{
    execute_msg_with_coin(anchor_money_market_address, ExecutePayload::Anchor(AnchorMsg::DepositStable), amount)
}

/// Deposits `amount` into Anchor; only UST is accepted.
pub fn try_deposit_to_anchor(anchor_money_market_address: String, amount: Coin) -> (r: Result<Response, ContractError>)
    ensures
        amount.denom@ != "uusd"@ ==> r == Err::<Response, ContractError>(ContractError::WrongCurrency),
        amount.denom@ == "uusd"@ ==> (r matches Ok(resp) && resp.messages@.len() == 1
            && resp.messages@[0] == plain(resp.messages@[0].msg)
            && is_anchor_deposit(resp.messages@[0].msg, anchor_money_market_address, amount)),
{
    if amount.denom != ust_denom_string() {
        return Err(ContractError::WrongCurrency);
    }
    let msg = deposit_msg(anchor_money_market_address, amount);
    Ok(Response::new().add_message(msg))
}

/// Deposits `amount` into Anchor as a sub-message with reply `id` on success; only UST is
/// accepted.
pub fn try_deposit_to_anchor_as_submsg(anchor_money_market_address: String, amount: Coin, id: u64) -> (r: Result<Response, ContractError>)
    ensures
        amount.denom@ != "uusd"@ ==> r == Err::<Response, ContractError>(ContractError::WrongCurrency),
        amount.denom@ == "uusd"@ ==> (r matches Ok(resp) && resp.messages@.len() == 1
            && resp.messages@[0].id == id && resp.messages@[0].gas_limit is None
            && resp.messages@[0].reply_on == ReplyOn::Success
            && is_anchor_deposit(resp.messages@[0].msg, anchor_money_market_address, amount)),
{
    if amount.denom != ust_denom_string() {
        return Err(ContractError::WrongCurrency);
    }
    let msg = deposit_msg(anchor_money_market_address, amount);
    Ok(Response::new().add_submessage(SubMsg { msg, gas_limit: None, id, reply_on: ReplyOn::Success }))
}

} // verus!
