//! Messages of the Mars Red Bank liquidation helper.
use vstd::prelude::*;

use crate::cosmos::{CosmosMsg, ExecutePayload, execute_msg, is_execute_no_funds, payload_of};
use crate::math::{Decimal, Uint256};

verus! {

#[derive(Clone, Debug, PartialEq)]
pub struct InstantiateMsg {
    pub owner: String,
    pub ust_arb_strategy: String,
    pub red_bank_addr: String,
    pub astroport_router: String,
    pub stable_denom: String,
}

#[derive(Clone, Debug, PartialEq)]
pub struct UpdateConfigMsg {
    pub owner: Option<String>,
    pub ust_arb_strategy: Option<String>,
    pub red_bank_addr: Option<String>,
    pub astroport_router: Option<String>,
}

#[derive(Clone, Debug, PartialEq)]
pub enum ExecuteMsg {
    UpdateConfig { new_config: UpdateConfigMsg },
    AddAsset { new_asset: MarsAsset },
    LiquidateRedBankUser {
        user_address: String,
        ust_to_borrow: Uint256,
        debt_asset: MarsAsset,
        collateral_asset: MarsAsset,
        max_loss_amount: Uint256,
    },
    /// Callbacks; only the contract itself may send them.
    Callback(CallbackMsg),
}

#[derive(Clone, Debug, PartialEq)]
pub enum CallbackMsg {
    InitiateLiquidationCallback {
        user_address: String,
        debt_asset: MarsAsset,
        collateral_asset: MarsAsset,
        max_loss_amount: Uint256,
    },
    AfterDebtAssetBuyCallback {
        user_address: String,
        debt_asset: MarsAsset,
        collateral_asset: MarsAsset,
        ust_amount: Uint256,
        max_loss_amount: Uint256,
    },
    AfterLiquidationCallback {
        debt_asset: MarsAsset,
        collateral_asset: MarsAsset,
        ust_amount: Uint256,
        max_loss_amount: Uint256,
    },
    AfterAssetsSellCallback { ust_amount: Uint256, max_loss_amount: Uint256 },
}

/// `m` hands `cb` to the contract at `contract_addr` as its callback.
pub open spec fn is_callback(m: CosmosMsg, contract_addr: String, cb: CallbackMsg) -> bool {
    &&& is_execute_no_funds(m, contract_addr)
    &&& payload_of(m) == ExecutePayload::Mars(ExecuteMsg::Callback(cb))
}

impl CallbackMsg {
    pub fn duplicate(&self) -> (r: CallbackMsg)
        ensures
            r == *self,
    {
        match self {
            CallbackMsg::InitiateLiquidationCallback { user_address, debt_asset, collateral_asset, max_loss_amount } => {
                CallbackMsg::InitiateLiquidationCallback {
                    user_address: user_address.clone(),
                    debt_asset: debt_asset.duplicate(),
                    collateral_asset: collateral_asset.duplicate(),
                    max_loss_amount: *max_loss_amount,
                }
            },
            CallbackMsg::AfterDebtAssetBuyCallback { user_address, debt_asset, collateral_asset, ust_amount, max_loss_amount } => {
                CallbackMsg::AfterDebtAssetBuyCallback {
                    user_address: user_address.clone(),
                    debt_asset: debt_asset.duplicate(),
                    collateral_asset: collateral_asset.duplicate(),
                    ust_amount: *ust_amount,
                    max_loss_amount: *max_loss_amount,
                }
            },
            CallbackMsg::AfterLiquidationCallback { debt_asset, collateral_asset, ust_amount, max_loss_amount } => {
                CallbackMsg::AfterLiquidationCallback {
                    debt_asset: debt_asset.duplicate(),
                    collateral_asset: collateral_asset.duplicate(),
                    ust_amount: *ust_amount,
                    max_loss_amount: *max_loss_amount,
                }
            },
            CallbackMsg::AfterAssetsSellCallback { ust_amount, max_loss_amount } => CallbackMsg::AfterAssetsSellCallback {
                ust_amount: *ust_amount,
                max_loss_amount: *max_loss_amount,
            },
        }
    }

    /// The message that has the contract at `contract_addr` run this callback.
    pub fn to_cosmos_msg(&self, contract_addr: &String) -> (m: CosmosMsg)
        ensures
            is_callback(m, *contract_addr, *self),
    {
        execute_msg(contract_addr.clone(), ExecutePayload::Mars(ExecuteMsg::Callback(self.duplicate())))
    }
}

#[derive(Clone, Copy, Debug, PartialEq, Eq, Structural)]
pub enum QueryMsg {
    Config,
    State,
}

#[derive(Clone, Debug, PartialEq)]
pub struct ConfigResponse {
    pub owner: String,
    pub ust_arb_strategy: String,
    pub red_bank_addr: String,
    pub astroport_router: String,
    pub stable_denom: String,
    pub assets_supported: Vec<RedBankAssetsInfo>,
}

#[derive(Clone, Copy, Debug, PartialEq, Eq, Structural)]
pub struct StateResponse {
    pub total_liquidations: u64,
    pub total_ust_profit: Uint256,
}

/// What the Red Bank executes for a liquidator.
#[derive(Clone, Debug, PartialEq)]
pub enum MarsLiquidationMsg {
    /// Repays a native loan with the coins sent.
    LiquidateNative {
        collateral_asset: MarsAsset,
        debt_asset_denom: String,
        user_address: String,
        receive_ma_token: bool,
    },
    /// Repays a CW20 loan with the tokens sent.
    LiquidateCw20 { collateral_asset: MarsAsset, user_address: String, receive_ma_token: bool },
}

/// The queries of the Red Bank.
#[derive(Clone, Debug, PartialEq)]
pub enum MarsQueryMsg {
    Market { asset: MarsAsset },
    UserDebt { user_address: String },
    UserAssetDebt { user_address: String, asset: MarsAsset },
    UserCollateral { user_address: String },
    UserPosition { user_address: String },
}

/// A Red Bank market.
#[derive(Clone, Debug, PartialEq)]
pub struct RedBankMarketQueryResponse {
    pub index: u32,
    pub ma_token_address: String,
    pub asset_type: MarsAssetType,
    pub max_loan_to_value: Decimal,
    pub liquidation_threshold: Decimal,
    pub liquidation_bonus: Decimal,
    pub reserve_factor: Decimal,
    pub interest_rate_strategy: InterestRateStrategy,
    pub borrow_index: Decimal,
    pub liquidity_index: Decimal,
    pub borrow_rate: Decimal,
    pub liquidity_rate: Decimal,
    pub interests_last_updated: u64,
    pub debt_total_scaled: u128,
    pub active: bool,
    pub deposit_enabled: bool,
    pub borrow_enabled: bool,
}

#[derive(Clone, Copy, Debug, PartialEq, Eq, Structural)]
pub enum InterestRateStrategy {
    Dynamic(DynamicInterestRate),
    Linear(LinearInterestRate),
}

#[derive(Clone, Copy, Debug, PartialEq, Eq, Structural)]
pub struct DynamicInterestRate {
    pub min_borrow_rate: Decimal,
    pub max_borrow_rate: Decimal,
    pub kp_1: Decimal,
    pub optimal_utilization_rate: Decimal,
    pub kp_augmentation_threshold: Decimal,
    pub kp_2: Decimal,
}

#[derive(Clone, Copy, Debug, PartialEq, Eq, Structural)]
pub struct LinearInterestRate {
    pub optimal_utilization_rate: Decimal,
    pub base: Decimal,
    pub slope_1: Decimal,
    pub slope_2: Decimal,
}

/// A native asset or a CW20 token, as the Red Bank names them.
#[derive(Clone, Debug, PartialEq)]
pub enum MarsAsset {
    Cw20 { contract_addr: String },
    Native { denom: String },
}

/// Two Mars assets are the same: the same kind and the same identifier.
pub open spec fn same_mars_asset(a: MarsAsset, b: MarsAsset) -> bool {
    match (a, b) {
        (MarsAsset::Cw20 { contract_addr: x }, MarsAsset::Cw20 { contract_addr: y }) => x@ == y@,
        (MarsAsset::Native { denom: x }, MarsAsset::Native { denom: y }) => x@ == y@,
        _ => false,
    }
}

impl MarsAsset {
    pub fn duplicate(&self) -> (r: MarsAsset)
        ensures
            r == *self,
    {
        match self {
            MarsAsset::Cw20 { contract_addr } => MarsAsset::Cw20 { contract_addr: contract_addr.clone() },
            MarsAsset::Native { denom } => MarsAsset::Native { denom: denom.clone() },
        }
    }

    /// Whether the asset is a CW20 token.
    pub fn is_cw20(&self) -> (b: bool)
        ensures
            b == (*self is Cw20),
    {
        match self {
            MarsAsset::Cw20 { .. } => true,
            MarsAsset::Native { .. } => false,
        }
    }

    /// Whether `other` is the same asset.
    pub fn equal(&self, other: &MarsAsset) -> (b: bool)
        ensures
            b == same_mars_asset(*self, *other),
    {
        match (self, other) {
            (MarsAsset::Cw20 { contract_addr: x }, MarsAsset::Cw20 { contract_addr: y }) => *x == *y,
            (MarsAsset::Native { denom: x }, MarsAsset::Native { denom: y }) => *x == *y,
            _ => false,
        }
    }
}

#[derive(Clone, Copy, Debug, PartialEq, Eq, Structural)]
pub enum MarsAssetType {
    Cw20,
    Native,
}

/// A Red Bank asset that the helper liquidates, with its market parameters.
#[derive(Clone, Debug, PartialEq)]
pub struct RedBankAssetsInfo {
    pub asset_info: MarsAsset,
    pub ma_token_address: String,
    pub max_loan_to_value: Decimal,
    pub liquidation_threshold: Decimal,
    pub liquidation_bonus: Decimal,
}

impl RedBankAssetsInfo {
    pub fn duplicate(&self) -> (r: RedBankAssetsInfo)
        ensures
            r == *self,
    {
        RedBankAssetsInfo {
            asset_info: self.asset_info.duplicate(),
            ma_token_address: self.ma_token_address.clone(),
            max_loan_to_value: self.max_loan_to_value,
            liquidation_threshold: self.liquidation_threshold,
            liquidation_bonus: self.liquidation_bonus,
        }
    }
}

} // verus!
