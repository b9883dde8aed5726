//! Messages of the Martian Fields liquidation helper.
use vstd::prelude::*;

use crate::cosmos::{CosmosMsg, ExecutePayload, execute_msg, is_execute_no_funds, payload_of};
use crate::math::Uint256;

verus! {

#[derive(Clone, Debug, PartialEq)]
pub struct InstantiateMsg {
    pub owner: String,
    pub ust_arb_strategy: String,
    pub martian_fields_addr: String,
    pub stable_denom: String,
}

#[derive(Clone, Debug, PartialEq)]
pub struct UpdateConfigMsg {
    pub owner: Option<String>,
    pub ust_arb_strategy: Option<String>,
}

#[derive(Clone, Debug, PartialEq)]
pub enum ExecuteMsg {
    UpdateConfig { new_config: UpdateConfigMsg },
    AddFieldsStrategy { fields_strat_addr: String },
    LiquidateFieldsPosition { user_address: String, ust_to_borrow: Uint256, fields_strat_addr: String },
    /// Callbacks; only the contract itself may send them.
    Callback(CallbackMsg),
}

#[derive(Clone, Debug, PartialEq)]
pub enum CallbackMsg {
    InitiateLiquidationCallback { user_address: String, fields_strat_addr: String },
    AfterLiquidationCallback,
}

/// `m` hands `cb` to the contract at `contract_addr` as its callback.
pub open spec fn is_callback(m: CosmosMsg, contract_addr: String, cb: CallbackMsg) -> bool {
    &&& is_execute_no_funds(m, contract_addr)
    &&& payload_of(m) == ExecutePayload::MarsFields(ExecuteMsg::Callback(cb))
}

impl CallbackMsg {
    pub fn duplicate(&self) -> (r: CallbackMsg)
        ensures
            r == *self,
    {
        match self {
            CallbackMsg::InitiateLiquidationCallback { user_address, fields_strat_addr } => {
                CallbackMsg::InitiateLiquidationCallback {
                    user_address: user_address.clone(),
                    fields_strat_addr: fields_strat_addr.clone(),
                }
            },
            CallbackMsg::AfterLiquidationCallback => CallbackMsg::AfterLiquidationCallback,
        }
    }

    /// The message that has the contract at `contract_addr` run this callback.
    pub fn to_cosmos_msg(&self, contract_addr: &String) -> (m: CosmosMsg)
        ensures
            is_callback(m, *contract_addr, *self),
    {
        execute_msg(contract_addr.clone(), ExecutePayload::MarsFields(ExecuteMsg::Callback(self.duplicate())))
    }
}

#[derive(Clone, Copy, Debug, PartialEq, Eq, Structural)]
pub enum QueryMsg {
    Config,
    State,
}

#[derive(Clone, Debug, PartialEq)]
pub struct ConfigResponse {
    pub owner: String,
    pub ust_arb_strategy: String,
    pub fields_addresses: Vec<String>,
    pub stable_denom: String,
}

#[derive(Clone, Copy, Debug, PartialEq, Eq, Structural)]
pub struct StateResponse {
    pub total_liquidations: u64,
    pub total_ust_profit: Uint256,
}

/// What a Martian Fields strategy executes.
#[derive(Clone, Debug, PartialEq)]
pub enum MartianFieldsLiquidationMsg {
    Liquidate { user: String },
}

/// The queries of a Martian Fields strategy.
#[derive(Clone, Debug, PartialEq)]
pub enum MartianFieldsQueryMsg {
    /// A user's position.
    Position { user: String },
    /// The health of a user's position.
    Health { user: String },
}

} // verus!
