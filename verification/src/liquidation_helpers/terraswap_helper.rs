//! Swaps on Terraswap pairs.
use vstd::prelude::*;

use crate::asset::{Asset, AssetInfo, Coin, TaxInfo, coin_tax, compute_tax, rate_ok, lemma_tax_le_amount, cap_of, luna_denom};
use crate::cosmos::{CosmosMsg, ExecutePayload, cw20_send_msg, execute_msg_with_coin, hook_of, is_cw20_send, is_execute, payload_of};
use crate::error::ContractError;
use crate::liquidation_helpers::astroport_helper::taxed_coin;
use crate::white_whale::terraswap::{PairCw20HookMsg, PairExecuteMsg};

verus! {

/// Sells `amount` of a CW20 token on its Terraswap pair.
pub fn trade_cw20_on_terraswap(pair_address: String, asset_to_sell_addr: String, amount: u128) -> (m: CosmosMsg)
    ensures
        is_cw20_send(m, asset_to_sell_addr, pair_address, amount),
        hook_of(m) == ExecutePayload::TerraswapCw20Hook(
            PairCw20HookMsg::Swap { belief_price: None, max_spread: None, to: None },
        ),
{
    cw20_send_msg(
        pair_address,
        asset_to_sell_addr,
        amount,
        ExecutePayload::TerraswapCw20Hook(PairCw20HookMsg::Swap { belief_price: None, max_spread: None, to: None }),
    )
}

/// `m` sells `offered` on the Terraswap pair at `pair`, which receives exactly that coin.
pub open spec fn is_pair_native_swap(m: CosmosMsg, pair: String, offered: Coin) -> bool {
    &&& is_execute(m, pair, seq![offered])
    &&& payload_of(m) == ExecutePayload::TerraswapPair(
        PairExecuteMsg::Swap {
            offer_asset: Asset { info: AssetInfo::NativeToken { denom: offered.denom }, amount: offered.amount },
            belief_price: None,
            max_spread: None,
            to: None,
        },
    )
}

/// Sells `amount` of a native coin, less tax, on a Terraswap pair.
pub fn trade_native_on_terraswap(
    tax: &TaxInfo,
    pair_address: String,
    native_denom: String,
    amount: u128,
) -> (r: Result<CosmosMsg, ContractError>)
    requires
        rate_ok(tax.rate),
    ensures
        r is Err <==> coin_tax(native_denom@, amount as int, *tax) is None,
        r is Err ==> r == Err::<CosmosMsg, ContractError>(ContractError::TaxQueryFailed),
        r matches Ok(m) ==> is_pair_native_swap(m, pair_address, taxed_coin(*tax, native_denom, amount)),
{
    let t = match compute_tax(tax, &native_denom, amount) {
        Some(t) => t,
        None => return Err(ContractError::TaxQueryFailed),
    };
    proof {
        if native_denom@ != luna_denom() {
            lemma_tax_le_amount(amount as int, tax.rate, cap_of(tax.caps@, native_denom@)->0 as int);
        }
    }
    let amount_received_by_pair = amount - t;
    let offer_asset = Asset {
        info: AssetInfo::NativeToken { denom: native_denom.clone() },
        amount: amount_received_by_pair,
    };
    Ok(execute_msg_with_coin(
        pair_address,
        ExecutePayload::TerraswapPair(PairExecuteMsg::Swap { offer_asset, belief_price: None, max_spread: None, to: None }),
        Coin { denom: native_denom, amount: amount_received_by_pair },
    ))
}

} // verus!
