//! Messages and helpers of the stablecoin vault, which keeps UST in Anchor and trades the
//! UST peg against Luna.
use vstd::prelude::*;

use crate::asset::{Asset, AssetInfo, Coin};
use crate::cosmos::Cw20ReceiveMsg;
use crate::math::{DECIMAL_FRACTIONAL, Decimal, mul_decimal, ratio_of};

pub use crate::white_whale::msg::create_terraswap_msg;
pub use crate::white_whale::query::anchor::{AnchorQuery, EpochStateResponse};

verus! {

/// Asks a contract to check that `receiver` got at least `minimum_receive` more of the
/// asset than `prev_balance`.
#[derive(Clone, Debug, PartialEq)]
pub struct AssertMinimumReceive {
    pub asset_info: AssetInfo,
    pub prev_balance: u128,
    pub minimum_receive: u128,
    pub receiver: String,
}

#[derive(Clone, Debug, PartialEq)]
pub struct InitMsg {
    pub pool_address: String,
    pub anchor_money_market_address: String,
    pub aust_address: String,
    pub seignorage_address: String,
    pub asset_info: AssetInfo,
    pub slippage: Decimal,
    /// The code id of the vault's share token.
    pub token_code_id: u64,
}

#[derive(Clone, Debug, PartialEq)]
pub enum AnchorMsg {
    DepositStable,
    RedeemStable,
    Send { contract: String, amount: u128, msg: Vec<u8> },
}

#[derive(Clone, Debug, PartialEq)]
pub enum HandleMsg {
    Receive(Cw20ReceiveMsg),
    AbovePeg { amount: Coin, uaust_withdraw_amount: u128 },
    BelowPeg { amount: Coin, uaust_withdraw_amount: u128 },
    PostInitialize,
    ProvideLiquidity { asset: Asset },
    AnchorDeposit { amount: Coin },
    SetSlippage { slippage: Decimal },
}

#[derive(Clone, Copy, Debug, PartialEq, Eq, Structural)]
pub enum QueryMsg {
    Asset,
    Pool,
}

/// The vault's holdings and the shares issued for them.
#[derive(Clone, Debug, PartialEq)]
pub struct PoolResponse {
    pub assets: [Asset; 3],
    pub total_deposits_in_ust: u128,
    pub total_share: u128,
}

/// Messages of the Terra market's limit-order check.
#[derive(Clone, Debug, PartialEq)]
pub enum Message {
    AssertLimitOrder { offer_coin: Coin, ask_denom: String, minimum_receive: u128 },
}

/// Checks that swapping `offer_coin` returns at least 99% of `minimum_receive` in
/// `ask_denom`.
pub fn create_assert_limit_order_msg(offer_coin: Coin, ask_denom: String, minimum_receive: u128) -> (m: Message)
    ensures
        m == (Message::AssertLimitOrder { offer_coin, ask_denom, minimum_receive: (minimum_receive * 99 / 100) as u128 }),
{
    let ghost f = DECIMAL_FRACTIONAL as int;
    assert(99 * f / 100 == 990_000_000_000_000_000int);
    assert(minimum_receive * 990_000_000_000_000_000int / f == minimum_receive * 99 / 100) by (nonlinear_arith)
        requires
            f == 1_000_000_000_000_000_000int,
    ;
    assert(minimum_receive * 99 / 100 <= minimum_receive) by (nonlinear_arith);
    let rate = Decimal::from_ratio(99, 100);
    Message::AssertLimitOrder { offer_coin, ask_denom, minimum_receive: mul_decimal(minimum_receive, rate) }
}

/// An amount of micro-units as a decimal of units: `amount / 10^6`. The value must fit a
/// decimal, which `requires` states.
pub fn from_micro(amount: u128) -> (d: Decimal)
    requires
        ratio_of(amount as int, DECIMAL_FRACTIONAL as int, 1_000_000) <= u128::MAX,
    ensures
        d.atomics == amount * 1_000_000_000_000,
{
    assert(amount * DECIMAL_FRACTIONAL as int / 1_000_000 == amount * 1_000_000_000_000) by (nonlinear_arith);
    Decimal::from_ratio(amount, 1_000_000)
}

} // verus!
