//! Messages of the DEX arbitrage helper.
use vstd::prelude::*;

use crate::asset::AssetInfo;
use crate::cosmos::{CosmosMsg, ExecutePayload, execute_msg, is_execute_no_funds, payload_of};
use crate::math::Uint256;

verus! {

#[derive(Clone, Debug, PartialEq)]
pub struct InstantiateMsg {
    pub owner: String,
    pub ust_vault_address: String,
    pub astroport_router: String,
    pub stable_denom: String,
    pub terraswap_pools: PoolInfo,
    pub loop_pools: PoolInfo,
}

/// New addresses for the configuration; those left `None` stay.
#[derive(Clone, Debug, PartialEq)]
pub struct UpdateConfigMsg {
    pub owner: Option<String>,
    pub ust_vault_address: Option<String>,
    pub astroport_router: Option<String>,
}

#[derive(Clone, Debug, PartialEq)]
pub enum ExecuteMsg {
    UpdateConfig { new_config: UpdateConfigMsg },
    AddPool { dex: DexInfo, new_asset: PoolInfo },
    InitiateArbitrage { buy_side: DexInfo, sell_side: DexInfo, ust_to_borrow: Uint256, asset: AssetInfo },
    /// Callbacks; only the contract itself may send them.
    Callback(CallbackMsg),
}

#[derive(Clone, Debug, PartialEq)]
pub enum CallbackMsg {
    InitiateArbCallback { buy_side: DexInfo, sell_side: DexInfo, asset: AssetInfo },
    AfterBuyCallback { sell_side: DexInfo, asset: AssetInfo, amount: Uint256 },
    AfterSellCallback { arb_amount: Uint256 },
}

/// `m` hands `cb` to the contract at `contract_addr` as its callback.
pub open spec fn is_callback(m: CosmosMsg, contract_addr: String, cb: CallbackMsg) -> bool {
    &&& is_execute_no_funds(m, contract_addr)
    &&& payload_of(m) == ExecutePayload::DexArb(ExecuteMsg::Callback(cb))
}

impl CallbackMsg {
    pub fn duplicate(&self) -> (r: CallbackMsg)
        ensures
            r == *self,
    {
        match self {
            CallbackMsg::InitiateArbCallback { buy_side, sell_side, asset } => CallbackMsg::InitiateArbCallback {
                buy_side: *buy_side,
                sell_side: *sell_side,
                asset: asset.duplicate(),
            },
            CallbackMsg::AfterBuyCallback { sell_side, asset, amount } => CallbackMsg::AfterBuyCallback {
                sell_side: *sell_side,
                asset: asset.duplicate(),
                amount: *amount,
            },
            CallbackMsg::AfterSellCallback { arb_amount } => CallbackMsg::AfterSellCallback { arb_amount: *arb_amount },
        }
    }

    /// The message that has the contract at `contract_addr` run this callback.
    pub fn to_cosmos_msg(&self, contract_addr: &String) -> (m: CosmosMsg)
        ensures
            is_callback(m, *contract_addr, *self),
    {
        execute_msg(contract_addr.clone(), ExecutePayload::DexArb(ExecuteMsg::Callback(self.duplicate())))
    }
}

#[derive(Clone, Copy, Debug, PartialEq, Eq, Structural)]
pub enum QueryMsg {
    Config,
    State,
}

#[derive(Clone, Debug, PartialEq)]
pub struct ConfigResponse {
    pub owner: String,
    pub ust_vault_address: String,
    pub astroport_router: String,
    pub stable_denom: String,
    pub terraswap_pools: Vec<PoolInfo>,
    pub loop_pools: Vec<PoolInfo>,
}

#[derive(Clone, Copy, Debug, PartialEq, Eq, Structural)]
pub struct StateResponse {
    pub total_arbs: u64,
    pub total_ust_profit: Uint256,
}

/// A pair that trades an asset against the stable denomination.
#[derive(Clone, Debug, PartialEq)]
pub struct PoolInfo {
    pub asset_token: AssetInfo,
    pub pair_address: String,
}

impl PoolInfo {
    pub fn duplicate(&self) -> (r: PoolInfo)
        ensures
            r == *self,
    {
        PoolInfo { asset_token: self.asset_token.duplicate(), pair_address: self.pair_address.clone() }
    }
}

/// The exchange on which a trade runs.
#[derive(Clone, Copy, Debug, PartialEq, Eq, Structural)]
pub enum DexInfo {
    Astroport,
    Terraswap,
    Loop,
}

} // verus!
