//! Messages of the peg arbitrage contract.
use vstd::prelude::*;

use crate::asset::{Asset, AssetInfo};
use crate::cosmos::{CosmosMsg, ExecutePayload, execute_msg, is_execute_no_funds, payload_of};
use crate::math::Decimal;

verus! {

#[derive(Clone, Debug, PartialEq)]
pub struct InstantiateMsg {
    pub vault_address: String,
    pub seignorage_address: String,
    pub asset_info: AssetInfo,
}

#[derive(Debug, PartialEq)]
pub enum ExecuteMsg {
    ExecuteArb { details: ArbDetails, above_peg: bool },
    AbovePegCallback { details: ArbDetails },
    BelowPegCallback { details: ArbDetails },
    SetAdmin { admin: String },
    UpdatePools { to_add: Option<Vec<(String, String)>>, to_remove: Option<Vec<String>> },
    SetVault { vault: String },
    Callback(CallbackMsg),
}

#[derive(Clone, Copy, Debug, PartialEq, Eq, Structural)]
pub enum CallbackMsg {
    AfterSuccessfulTradeCallback,
}

impl CallbackMsg {
    /// The message that has the contract at `contract_addr` run this callback.
    pub fn to_cosmos_msg(&self, contract_addr: &String) -> (m: CosmosMsg)
        ensures
            is_execute_no_funds(m, *contract_addr),
            payload_of(m) == ExecutePayload::PegArb(ExecuteMsg::Callback(*self)),
    {
        execute_msg(contract_addr.clone(), ExecutePayload::PegArb(ExecuteMsg::Callback(*self)))
    }
}

#[derive(Clone, Debug, PartialEq)]
pub struct ArbDetails {
    pub asset: Asset,
    pub slippage: Decimal,
    pub belief_price: Decimal,
    pub pool_name: String,
}

#[derive(Clone, Copy, Debug, PartialEq, Eq, Structural)]
pub enum QueryMsg {
    Config,
}

#[derive(Clone, Copy, Debug, PartialEq, Eq, Structural)]
pub struct MigrateMsg {}

} // verus!
