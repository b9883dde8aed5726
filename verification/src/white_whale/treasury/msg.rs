//! Messages of the treasury.
use vstd::prelude::*;

use crate::asset::AssetInfo;
use crate::cosmos::{CosmosMsg, ExecutePayload, execute_msg, is_execute_no_funds, payload_of};
use crate::white_whale::treasury::vault_assets::VaultAsset;

verus! {

#[derive(Clone, Copy, Debug, PartialEq, Eq, Structural)]
pub struct InstantiateMsg {}

#[derive(Debug, PartialEq)]
pub enum ExecuteMsg {
    /// Sets the admin.
    SetAdmin { admin: String },
    /// Executes the messages if the sender is a whitelisted trader.
    TraderAction { msgs: Vec<CosmosMsg> },
    /// Whitelists a trader.
    AddTrader { trader: String },
    /// Removes a trader from the whitelist.
    RemoveTrader { trader: String },
    /// Updates the vault assets.
    UpdateAssets { to_add: Vec<VaultAsset>, to_remove: Vec<AssetInfo> },
}

#[derive(Clone, Debug, PartialEq)]
pub enum QueryMsg {
    /// The treasury's configuration.
    Config,
    /// The total value of all assets held.
    TotalValue,
    /// The value of one asset.
    HoldingValue { identifier: String },
    /// The amount of one asset held.
    HoldingAmount { identifier: String },
    /// The stored vault asset of one identifier.
    VaultAssetConfig { identifier: String },
}

#[derive(Clone, Debug, PartialEq)]
pub struct ConfigResponse {
    pub traders: Vec<String>,
}

#[derive(Clone, Copy, Debug, PartialEq, Eq, Structural)]
pub struct TotalValueResponse {
    pub value: u128,
}

#[derive(Clone, Copy, Debug, PartialEq, Eq, Structural)]
pub struct HoldingValueResponse {
    pub value: u128,
}

/// `m` has the treasury at `treasury` execute `msgs` as a trader action.
pub open spec fn is_trader_action(m: CosmosMsg, treasury: String, msgs: Seq<CosmosMsg>) -> bool {
    &&& is_execute_no_funds(m, treasury)
    &&& payload_of(m) matches ExecutePayload::Treasury(ExecuteMsg::TraderAction { msgs: inner })
    &&& inner@ == msgs
}

/// The trader-action message that every dApp sends to the treasury.
pub fn send_to_treasury(msgs: Vec<CosmosMsg>, treasury_address: &String) -> (m: CosmosMsg)
    ensures
        is_trader_action(m, *treasury_address, msgs@),
{
    execute_msg(treasury_address.clone(), ExecutePayload::Treasury(ExecuteMsg::TraderAction { msgs }))
}

} // verus!
