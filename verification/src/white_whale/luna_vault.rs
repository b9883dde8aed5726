//! Messages of the Luna vault.
use vstd::prelude::*;

use crate::asset::{Asset, AssetInfo, Coin};
use crate::cosmos::{CosmosMsg, Cw20ReceiveMsg, ExecutePayload, execute_msg, is_execute_no_funds, payload_of};
use crate::math::Decimal;
use crate::white_whale::fee::{Fee, VaultFee};

verus! {

#[derive(Clone, Debug, PartialEq)]
pub struct InstantiateMsg {
    pub bluna_address: String,
    pub cluna_address: String,
    /// The bLuna-Luna pool that earns the passive income.
    pub astro_lp_address: String,
    /// The Astroport factory.
    pub astro_factory_address: String,
    pub treasury_addr: String,
    pub memory_addr: String,
    pub asset_info: AssetInfo,
    pub token_code_id: u64,
    pub treasury_fee: Decimal,
    pub flash_loan_fee: Decimal,
    pub commission_fee: Decimal,
    pub vault_lp_token_name: Option<String>,
    pub vault_lp_token_symbol: Option<String>,
    pub unbonding_period: u64,
    pub unbond_handler_code_id: u64,
}

#[derive(Clone, Debug, PartialEq)]
pub enum ExecuteMsg {
    /// Receive hook of the liquidity token.
    Receive(Cw20ReceiveMsg),
    /// Provides liquidity to the vault.
    ProvideLiquidity { asset: Asset },
    /// Sends unbonded Luna back to the user.
    WithdrawUnbonded,
    /// Sets the fees.
    SetFee { flash_loan_fee: Option<Fee>, treasury_fee: Option<Fee>, commission_fee: Option<Fee> },
    /// Sets the admin.
    SetAdmin { admin: String },
    /// Whitelists a contract.
    AddToWhitelist { contract_addr: String },
    /// Removes a contract from the whitelist.
    RemoveFromWhitelist { contract_addr: String },
    /// Updates the vault's state.
    UpdateState {
        bluna_address: Option<String>,
        astro_lp_address: Option<String>,
        memory_address: Option<String>,
        whitelisted_contracts: Option<Vec<String>>,
        allow_non_whitelisted: Option<bool>,
        unbonding_period: Option<u64>,
    },
    /// Executes a flash loan.
    FlashLoan { payload: FlashLoanPayload },
    /// Swaps the passive strategy's rewards for Luna.
    SwapRewards,
    /// Internal callback.
    Callback(CallbackMsg),
    /// Sent by unbond handlers.
    UnbondHandler(UnbondHandlerMsg),
}

/// A flash loan request: the asset to lend and the serialized message to run with it.
#[derive(Clone, Debug, PartialEq)]
pub struct FlashLoanPayload {
    pub requested_asset: Asset,
    pub callback: Vec<u8>,
}

#[derive(Clone, Copy, Debug, PartialEq, Eq, Structural)]
pub struct MigrateMsg {}

#[derive(Clone, Copy, Debug, PartialEq, Eq, Structural)]
pub enum CallbackMsg {
    AfterTrade { loan_fee: u128 },
}

impl CallbackMsg {
    /// The message that has the contract at `contract_addr` run this callback.
    pub fn to_cosmos_msg(&self, contract_addr: &String) -> (m: CosmosMsg)
        ensures
            is_execute_no_funds(m, *contract_addr),
            payload_of(m) == ExecutePayload::LunaVault(ExecuteMsg::Callback(*self)),
    {
        execute_msg(contract_addr.clone(), ExecutePayload::LunaVault(ExecuteMsg::Callback(*self)))
    }
}

#[derive(Clone, Debug, PartialEq)]
pub enum UnbondHandlerMsg {
    AfterUnbondHandlerReleased { unbond_handler_addr: String, previous_owner: String },
}

#[derive(Clone, Copy, Debug, PartialEq, Eq, Structural)]
pub enum UnbondActionReply {
    /// Sent right after an unbond handler is created, to have it unbond.
    Unbond { bluna_amount: u128 },
}

#[derive(Clone, Debug, PartialEq)]
pub enum VaultQueryMsg {
    PoolConfig,
    PoolState,
    State,
    Fees,
    EstimateWithdrawFee { amount: u128 },
    VaultValue,
    LastBalance,
    LastProfit,
    WithdrawableUnbonded { address: String },
    UnbondRequests { address: String, start_from: Option<u64>, limit: Option<u32> },
    AllHistory { start_from: Option<u64>, limit: Option<u32> },
}

#[derive(Clone, Copy, Debug, PartialEq, Eq, Structural)]
pub enum Cw20HookMsg {
    Unbond,
}

#[derive(Clone, Debug, PartialEq)]
pub struct PoolResponse {
    pub assets: Vec<Asset>,
    pub total_value_in_luna: u128,
    pub total_share: u128,
    pub liquidity_token: String,
}

#[derive(Clone, Copy, Debug, PartialEq, Eq, Structural)]
pub struct DepositResponse {
    pub deposit: u128,
}

#[derive(Clone, Copy, Debug, PartialEq, Eq, Structural)]
pub struct ValueResponse {
    pub total_luna_value: u128,
}

#[derive(Clone, Debug, PartialEq)]
pub struct FeeResponse {
    pub fees: VaultFee,
}

#[derive(Clone, Debug, PartialEq)]
pub struct EstimateDepositFeeResponse {
    pub fee: Vec<Coin>,
}

#[derive(Clone, Debug, PartialEq)]
pub struct EstimateWithdrawFeeResponse {
    pub fee: Vec<Coin>,
}

#[derive(Clone, Debug, PartialEq)]
pub struct StateResponse {
    pub anchor_money_market_address: String,
    pub aust_address: String,
    pub allow_non_whitelisted: bool,
}

#[derive(Clone, Copy, Debug, PartialEq, Eq, Structural)]
pub struct LastBalanceResponse {
    pub last_balance: u128,
}

#[derive(Clone, Copy, Debug, PartialEq, Eq, Structural)]
pub struct LastProfitResponse {
    pub last_profit: u128,
}

#[derive(Clone, Copy, Debug, PartialEq, Eq, Structural)]
pub struct WithdrawableUnbondedResponse {
    pub withdrawable: u128,
}

#[derive(Clone, Debug, PartialEq)]
pub struct UnbondRequestsResponse {
    pub address: String,
    pub requests: Vec<(u64, u128)>,
}

#[derive(Clone, Debug, PartialEq)]
pub struct AllHistoryResponse {
    pub history: Vec<UnbondHistoryResponse>,
}

#[derive(Clone, Copy, Debug, PartialEq, Eq, Structural)]
pub struct UnbondHistoryResponse {
    pub batch_id: u64,
    pub time: u64,
    pub amount: u128,
    pub released: bool,
}

} // verus!
