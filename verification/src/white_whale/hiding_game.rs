//! Messages of the hiding-game contract.
use vstd::prelude::*;

use crate::cosmos::{CosmosMsg, ExecutePayload, execute_msg, is_execute_no_funds, payload_of};
use crate::math::Decimal;
use crate::white_whale::treasury::vault_assets::VaultAsset;

verus! {

#[derive(Clone, Copy, Debug, PartialEq, Eq, Structural)]
pub struct MigrateMsg {}

#[derive(Clone, Debug, PartialEq)]
pub struct InstantiateMsg {
    pub memory: String,
    pub rebait_ratio: Decimal,
    pub dex_arb_addr: String,
    pub seignorage_addr: String,
    pub vault_addr: String,
    pub whale: VaultAsset,
}

#[derive(Debug, PartialEq)]
pub enum ExecuteMsg {
    /// Updates the config.
    UpdateConfig,
    WhaleTrade {
        pair: (String, String),
        offer: String,
        amount: u128,
        max_spread: Option<Decimal>,
        belief_price: Option<Decimal>,
    },
    /// Sets a new admin.
    SetAdmin { admin: String },
    Callback(CallbackMsg),
}

#[derive(Clone, Copy, Debug, PartialEq, Eq, Structural)]
pub enum CallbackMsg {
    AfterTrade,
}

impl CallbackMsg {
    /// The message that has the contract at `contract_addr` run this callback.
    pub fn to_cosmos_msg(&self, contract_addr: &String) -> (m: CosmosMsg)
        ensures
            is_execute_no_funds(m, *contract_addr),
            payload_of(m) == ExecutePayload::HidingGame(ExecuteMsg::Callback(*self)),
    {
        execute_msg(contract_addr.clone(), ExecutePayload::HidingGame(ExecuteMsg::Callback(*self)))
    }
}

} // verus!
