//! Prism cLuna unbonding messages.
use vstd::prelude::*;

use crate::cosmos::{CosmosMsg, ExecutePayload, cw20_send_msg, execute_msg, hook_of, is_cw20_send, is_execute_no_funds, payload_of};

verus! {

#[derive(Clone, Copy, Debug, PartialEq, Eq, Structural)]
pub enum PrismMsg {
    Unbond,
    WithdrawUnbonded,
}

/// Sends `amount` cLuna to the hub with an `Unbond` hook.
pub fn prism_cluna_unbond_msg(cluna_address: String, cluna_hub_address: String, amount: u128) -> (m: CosmosMsg)
    ensures
        is_cw20_send(m, cluna_address, cluna_hub_address, amount),
        hook_of(m) == ExecutePayload::Prism(PrismMsg::Unbond),
{
    cw20_send_msg(cluna_hub_address, cluna_address, amount, ExecutePayload::Prism(PrismMsg::Unbond))
}

/// Asks the hub to pay out what has been unbonded.
pub fn prism_withdraw_unbonded_msg(cluna_hub_address: String) -> (m: CosmosMsg)
    ensures
        is_execute_no_funds(m, cluna_hub_address),
        payload_of(m) == ExecutePayload::Prism(PrismMsg::WithdrawUnbonded),
{
    execute_msg(cluna_hub_address, ExecutePayload::Prism(PrismMsg::WithdrawUnbonded))
}

} // verus!
