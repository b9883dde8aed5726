//! A test arbitrage contract for the UST peg: it swaps on the Terra market module and on a
//! Terraswap pool, in the order that the side of the peg asks for.
use vstd::prelude::*;

use crate::asset::{Asset, AssetInfo, Coin, luna_denom, luna_denom_string};
use crate::cosmos::{
    BankMsg, CosmosMsg, ExecutePayload, Response, TerraMsg, TerraMsgWrapper, TerraRoute, WasmMsg, create_swap_msg,
    execute_msg_with_coin, is_bank_send, is_execute, payload_of, plain,
};
use crate::error::ContractError;
use crate::math::{DECIMAL_FRACTIONAL, Decimal, multiply_ratio, mul_decimal, ratio_of};
use crate::white_whale::query::memory::{length_prefixed, to_length_prefixed};
use crate::white_whale::terraswap::PairExecuteMsg;

pub use crate::white_whale::msg::create_terraswap_msg;
pub use crate::white_whale::query::memory::concat;
pub use crate::contracts::stablecoin_vault::{AssertMinimumReceive, Message, create_assert_limit_order_msg};

verus! {

#[derive(Clone, Debug, PartialEq)]
pub struct InitMsg {
    pub pool_address: String,
}

#[derive(Clone, Debug, PartialEq)]
pub enum HandleMsg {
    /// UST trades above its peg: buy Luna on the pool with `amount`, then swap the Luna
    /// back to UST on the market.
    AbovePeg { amount: Coin, luna_price: Coin },
    /// UST trades below its peg: swap `amount` for Luna on the market, then sell the Luna
    /// on the pool.
    BelowPeg { amount: Coin, luna_price: Coin },
    /// Sends `amount` to the sender.
    Receive { amount: Coin },
}

#[derive(Clone, Copy, Debug, PartialEq, Eq, Structural)]
pub enum QueryMsg {
    Asset,
    Pool,
}

/// A pool and the share tokens issued for it.
#[derive(Clone, Debug, PartialEq)]
pub struct PoolResponse {
    pub asset: Asset,
    pub total_share: u128,
}

/// The contract's owner and the Terraswap pool it trades on.
#[derive(Clone, Debug, PartialEq)]
pub struct State {
    pub owner: String,
    pub pool_address: String,
}

/// The state at instantiation: the sender owns the contract. `addresses_valid` is the
/// chain's verdict on the two addresses.
pub fn init(sender: String, msg: InitMsg, addresses_valid: bool) -> (r: Result<(State, Response), ContractError>)
    ensures
        !addresses_valid ==> r == Err::<(State, Response), ContractError>(ContractError::InvalidAddress),
        addresses_valid ==> (r matches Ok((state, resp)) && state == (State { owner: sender, pool_address: msg.pool_address })
            && resp.messages@.len() == 0),
{
    if !addresses_valid {
        return Err(ContractError::InvalidAddress);
    }
    Ok((State { owner: sender, pool_address: msg.pool_address }, Response::new()))
}

/// A coin's amount divided by the Luna price, in the coin's denomination; the price must
/// not be zero.
pub fn to_luna(coin: Coin, luna_price: Coin) -> (r: Coin)
    requires
        luna_price.amount != 0,
    ensures
        r.denom == coin.denom,
        r.amount == coin.amount / luna_price.amount,
{
    assert(ratio_of(coin.amount as int, 1, luna_price.amount as int) == coin.amount as int / luna_price.amount as int);
    assert(coin.amount as int / luna_price.amount as int <= coin.amount) by (nonlinear_arith)
        requires
            luna_price.amount >= 1,
    ;
    Coin { denom: coin.denom, amount: multiply_ratio(coin.amount, 1, luna_price.amount) }
}

/// How much Luna `amount` micro-units buy at `luna_price` micro-units per Luna:
/// `amount * (10^6 / luna_price)`, with the ratio rounded to 18 decimals.
pub open spec fn luna_for(amount: u128, luna_price: u128) -> int {
    let rate = Decimal { atomics: ratio_of(1_000_000, DECIMAL_FRACTIONAL as int, luna_price as int) as u128 };
    rate.spec_value_times(amount as int)
}

/// The prices and amounts on which the arbitrage neither divides by zero nor overflows.
pub open spec fn arb_fits(amount: u128, luna_price: u128) -> bool {
    &&& luna_price != 0
    &&& luna_for(amount, luna_price) <= u128::MAX
}

fn luna_amount(amount: u128, luna_price: u128) -> (r: u128)
    requires
        arb_fits(amount, luna_price),
    ensures
        r == luna_for(amount, luna_price),
{
    assert(1_000_000int * DECIMAL_FRACTIONAL as int / luna_price as int <= 1_000_000int * DECIMAL_FRACTIONAL as int)
        by (nonlinear_arith)
        requires
            luna_price >= 1,
    ;
    let rate = Decimal::from_ratio(1_000_000, luna_price);
    mul_decimal(amount, rate)
}

/// The Terraswap message that sells `offer` on the pool, at the pool's price.
pub open spec fn is_pool_sale(m: CosmosMsg, pool_address: String, offer: Coin) -> bool {
    &&& is_execute(m, pool_address, seq![offer])
    &&& payload_of(m) == ExecutePayload::TerraswapPair(
        PairExecuteMsg::Swap {
            offer_asset: Asset { info: AssetInfo::NativeToken { denom: offer.denom }, amount: offer.amount },
            belief_price: None,
            max_spread: None,
            to: None,
        },
    )
}

fn pool_sale(pool_address: String, offer: Coin) -> (m: CosmosMsg)
    ensures
        is_pool_sale(m, pool_address, offer),
{
    let offer_asset = Asset { info: AssetInfo::NativeToken { denom: offer.denom.clone() }, amount: offer.amount };
    let swap = PairExecuteMsg::Swap { offer_asset, belief_price: None, max_spread: None, to: None };
    execute_msg_with_coin(pool_address, ExecutePayload::TerraswapPair(swap), offer)
}

/// `m` swaps `offer_coin` for `ask_denom` on the Terra market.
pub open spec fn is_market_swap(m: CosmosMsg, offer_coin: Coin, ask_denom: Seq<char>) -> bool {
    &&& m matches CosmosMsg::Custom(TerraMsgWrapper { route, msg_data: TerraMsg::Swap { offer_coin: c, ask_denom: a } })
    &&& route == TerraRoute::Market
    &&& c == offer_coin
    &&& a@ == ask_denom
}

/// Below the peg: swaps `amount` for Luna on the market, then sells on the pool the Luna
/// that `amount` buys at `luna_price`.
pub fn try_arb_below_peg(state: &State, amount: Coin, luna_price: Coin) -> (r: Response)
    requires
        arb_fits(amount.amount, luna_price.amount),
    ensures
        r.messages@.len() == 2,
        r.messages@[0] == plain(r.messages@[0].msg),
        r.messages@[1] == plain(r.messages@[1].msg),
        is_market_swap(r.messages@[0].msg, amount, luna_denom()),
        r.messages@[1].msg matches CosmosMsg::Wasm(_),
        exists|offer: Coin| offer.denom@ == luna_denom() && offer.amount == luna_for(amount.amount, luna_price.amount)
            && #[trigger] is_pool_sale(r.messages@[1].msg, state.pool_address, offer),
{
    let offer_coin = Coin { denom: luna_denom_string(), amount: luna_amount(amount.amount, luna_price.amount) };
    let swap_msg = create_swap_msg(amount, luna_denom_string());
    let terraswap_msg = pool_sale(state.pool_address.clone(), offer_coin);
    Response::new().add_message(swap_msg).add_message(terraswap_msg)
}

/// Above the peg: sells `amount` on the pool, then swaps on the market, back to the
/// denomination of `amount`, the Luna that `amount` buys at `luna_price`.
pub fn try_arb_above_peg(state: &State, amount: Coin, luna_price: Coin) -> (r: Response)
    requires
        arb_fits(amount.amount, luna_price.amount),
    ensures
        r.messages@.len() == 2,
        r.messages@[0] == plain(r.messages@[0].msg),
        r.messages@[1] == plain(r.messages@[1].msg),
        is_pool_sale(r.messages@[0].msg, state.pool_address, amount),
        r.messages@[1].msg matches CosmosMsg::Custom(_),
        exists|offer: Coin| offer.denom@ == luna_denom() && offer.amount == luna_for(amount.amount, luna_price.amount)
            && #[trigger] is_market_swap(r.messages@[1].msg, offer, amount.denom@),
{
    let terraswap_msg = pool_sale(state.pool_address.clone(), amount.duplicate());
    let offer_coin = Coin { denom: luna_denom_string(), amount: luna_amount(amount.amount, luna_price.amount) };
    let ghost offer = offer_coin;
    let swap_msg = create_swap_msg(offer_coin, amount.denom);
    let r = Response::new().add_message(terraswap_msg).add_message(swap_msg);
    assert(is_market_swap(r.messages@[1].msg, offer, amount.denom@));
    r
}

/// Sends `amount` to the sender.
pub fn try_send_funds(sender: String, amount: Coin) -> (r: Response)
    ensures
        r.messages@.len() == 1,
        r.messages@[0] == plain(r.messages@[0].msg),
        is_bank_send(r.messages@[0].msg, sender, seq![amount]),
{
    let mut coins: Vec<Coin> = Vec::new();
    coins.push(amount);
    Response::new().add_message(CosmosMsg::Bank(BankMsg::Send { to_address: sender, amount: coins }))
}

/// Runs a handle message.
pub fn handle(state: &State, sender: String, msg: HandleMsg) -> (r: Response)
    requires
        msg matches HandleMsg::AbovePeg { amount, luna_price } ==> arb_fits(amount.amount, luna_price.amount),
        msg matches HandleMsg::BelowPeg { amount, luna_price } ==> arb_fits(amount.amount, luna_price.amount),
    ensures
        match msg {
            HandleMsg::AbovePeg { amount, luna_price } => {
                &&& r.messages@.len() == 2
                &&& r.messages@[0] == plain(r.messages@[0].msg)
                &&& r.messages@[1] == plain(r.messages@[1].msg)
                &&& is_pool_sale(r.messages@[0].msg, state.pool_address, amount)
                &&& r.messages@[1].msg matches CosmosMsg::Custom(_)
                &&& exists|offer: Coin| offer.denom@ == luna_denom() && offer.amount == luna_for(amount.amount, luna_price.amount)
                    && #[trigger] is_market_swap(r.messages@[1].msg, offer, amount.denom@)
            },
            HandleMsg::BelowPeg { amount, luna_price } => {
                &&& r.messages@.len() == 2
                &&& r.messages@[0] == plain(r.messages@[0].msg)
                &&& r.messages@[1] == plain(r.messages@[1].msg)
                &&& is_market_swap(r.messages@[0].msg, amount, luna_denom())
                &&& r.messages@[1].msg matches CosmosMsg::Wasm(_)
                &&& exists|offer: Coin| offer.denom@ == luna_denom() && offer.amount == luna_for(amount.amount, luna_price.amount)
                    && #[trigger] is_pool_sale(r.messages@[1].msg, state.pool_address, offer)
            },
            HandleMsg::Receive { amount } => r.messages@.len() == 1 && r.messages@[0] == plain(r.messages@[0].msg)
                && is_bank_send(r.messages@[0].msg, sender, seq![amount]),
        },
{
    match msg {
        HandleMsg::AbovePeg { amount, luna_price } => try_arb_above_peg(state, amount, luna_price),
        HandleMsg::BelowPeg { amount, luna_price } => try_arb_below_peg(state, amount, luna_price),
        HandleMsg::Receive { amount } => try_send_funds(sender, amount),
    }
}

/// The contract answers no query.
pub fn query(msg: QueryMsg) -> (r: Result<(), ContractError>)
    ensures
        r == Err::<(), ContractError>(ContractError::NotImplemented),
{
    Err(ContractError::NotImplemented)
}

/// The bytes `balance`, the namespace of CW20 balances.
pub open spec fn balance_namespace() -> Seq<u8> {
    seq![98u8, 97u8, 108u8, 97u8, 110u8, 99u8, 101u8]
}

/// The raw storage key of an account's balance in a CW20 contract: the length-prefixed
/// namespace `balance`, then the account's canonical address.
pub fn token_balance_key(account: &[u8]) -> (k: Vec<u8>)
    ensures
        k@ == length_prefixed(balance_namespace()) + account@,
{
    let namespace: [u8; 7] = [98, 97, 108, 97, 110, 99, 101];
    let ns: &[u8] = &namespace;
    assert(ns@ =~= balance_namespace());
    let prefix = to_length_prefixed(ns);
    concat(prefix.as_slice(), account)
}

} // verus!
