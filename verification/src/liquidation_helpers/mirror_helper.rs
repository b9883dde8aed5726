//! Messages of the Mirror liquidation helper.
use vstd::prelude::*;

use crate::asset::AssetInfo;
use crate::cosmos::{CosmosMsg, ExecutePayload, execute_msg, is_execute_no_funds, payload_of};
use crate::math::{Decimal256, Uint256};

verus! {

#[derive(Clone, Debug, PartialEq)]
pub struct InstantiateMsg {
    pub owner: String,
    pub ust_vault_address: String,
    pub mirror_mint_contract: String,
    pub stable_denom: String,
    pub massets_supported: Vec<MAssetInfo>,
}

#[derive(Clone, Debug, PartialEq)]
pub struct UpdateConfigMsg {
    pub owner: Option<String>,
    pub ust_vault_address: Option<String>,
    pub mirror_mint_contract: Option<String>,
}

#[derive(Clone, Debug, PartialEq)]
pub enum ExecuteMsg {
    UpdateConfig { new_config: UpdateConfigMsg },
    AddMasset { new_masset_info: AssetInfo, pair_address: String },
    LiquidateMirrorPosition { position_idx: u128, ust_to_borrow: Uint256, max_loss_amount: Uint256 },
    /// Callbacks; only the contract itself may send them.
    Callback(CallbackMsg),
}

#[derive(Clone, Debug, PartialEq)]
pub enum CallbackMsg {
    InitiateLiquidationCallback {
        position_idx: u128,
        minted_masset: String,
        minted_pair_addr: String,
        collateral_masset: AssetInfo,
        collateral_pair_addr: String,
        max_loss_amount: Uint256,
    },
    AftermAssetBuyCallback {
        position_idx: u128,
        minted_masset: String,
        minted_pair_addr: String,
        collateral_masset: AssetInfo,
        collateral_pair_addr: String,
        ust_amount: Uint256,
        max_loss_amount: Uint256,
    },
    AfterLiquidationCallback {
        minted_masset: String,
        minted_pair_addr: String,
        collateral_masset: AssetInfo,
        collateral_pair_addr: String,
        ust_amount: Uint256,
        max_loss_amount: Uint256,
    },
    AftermAssetsSellCallback { ust_amount: Uint256, max_loss_amount: Uint256 },
}

/// `m` hands `cb` to the contract at `contract_addr` as its callback.
pub open spec fn is_callback(m: CosmosMsg, contract_addr: String, cb: CallbackMsg) -> bool {
    &&& is_execute_no_funds(m, contract_addr)
    &&& payload_of(m) == ExecutePayload::Mirror(ExecuteMsg::Callback(cb))
}

impl CallbackMsg {
    pub fn duplicate(&self) -> (r: CallbackMsg)
        ensures
            r == *self,
    {
        match self {
            CallbackMsg::InitiateLiquidationCallback {
                position_idx,
                minted_masset,
                minted_pair_addr,
                collateral_masset,
                collateral_pair_addr,
                max_loss_amount,
            } => CallbackMsg::InitiateLiquidationCallback {
                position_idx: *position_idx,
                minted_masset: minted_masset.clone(),
                minted_pair_addr: minted_pair_addr.clone(),
                collateral_masset: collateral_masset.duplicate(),
                collateral_pair_addr: collateral_pair_addr.clone(),
                max_loss_amount: *max_loss_amount,
            },
            CallbackMsg::AftermAssetBuyCallback {
                position_idx,
                minted_masset,
                minted_pair_addr,
                collateral_masset,
                collateral_pair_addr,
                ust_amount,
                max_loss_amount,
            } => CallbackMsg::AftermAssetBuyCallback {
                position_idx: *position_idx,
                minted_masset: minted_masset.clone(),
                minted_pair_addr: minted_pair_addr.clone(),
                collateral_masset: collateral_masset.duplicate(),
                collateral_pair_addr: collateral_pair_addr.clone(),
                ust_amount: *ust_amount,
                max_loss_amount: *max_loss_amount,
            },
            CallbackMsg::AfterLiquidationCallback {
                minted_masset,
                minted_pair_addr,
                collateral_masset,
                collateral_pair_addr,
                ust_amount,
                max_loss_amount,
            } => CallbackMsg::AfterLiquidationCallback {
                minted_masset: minted_masset.clone(),
                minted_pair_addr: minted_pair_addr.clone(),
                collateral_masset: collateral_masset.duplicate(),
                collateral_pair_addr: collateral_pair_addr.clone(),
                ust_amount: *ust_amount,
                max_loss_amount: *max_loss_amount,
            },
            CallbackMsg::AftermAssetsSellCallback { ust_amount, max_loss_amount } => CallbackMsg::AftermAssetsSellCallback {
                ust_amount: *ust_amount,
                max_loss_amount: *max_loss_amount,
            },
        }
    }

    /// The message that has the contract at `contract_addr` run this callback.
    pub fn to_cosmos_msg(&self, contract_addr: &String) -> (m: CosmosMsg)
        ensures
            is_callback(m, *contract_addr, *self),
    {
        execute_msg(contract_addr.clone(), ExecutePayload::Mirror(ExecuteMsg::Callback(self.duplicate())))
    }
}

#[derive(Clone, Copy, Debug, PartialEq, Eq, Structural)]
pub enum QueryMsg {
    Config,
    State,
}

#[derive(Clone, Debug, PartialEq)]
pub struct ConfigResponse {
    pub owner: String,
    pub ust_vault_address: String,
    pub mirror_mint_contract: String,
    pub stable_denom: String,
    pub massets_supported: Vec<MAssetInfo>,
}

#[derive(Clone, Copy, Debug, PartialEq, Eq, Structural)]
pub struct StateResponse {
    pub total_liquidations: u64,
    pub total_ust_profit: Uint256,
}

/// An mAsset that the helper liquidates, with its pair and its mint parameters.
#[derive(Clone, Debug, PartialEq)]
pub struct MAssetInfo {
    pub asset_token: AssetInfo,
    pub pair_address: String,
    pub auction_discount: Decimal256,
    pub min_collateral_ratio: Decimal256,
}

} // verus!
