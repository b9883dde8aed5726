//! Terraswap swap messages.
use vstd::prelude::*;

use crate::asset::{Asset, AssetInfo, Coin};
use crate::math::{Decimal, DECIMAL_FRACTIONAL};
use crate::white_whale::terraswap::PairExecuteMsg;

verus! {

/// A one-percent spread.
pub open spec fn one_percent() -> Decimal {
    Decimal { atomics: (DECIMAL_FRACTIONAL / 100) as u128 }
}

/// A Terraswap swap of the offered native coin at `belief_price`, with a one-percent
/// maximum spread.
pub fn create_terraswap_msg(offer: Coin, belief_price: Decimal) -> (m: PairExecuteMsg)
    ensures
        m == (PairExecuteMsg::Swap {
            offer_asset: Asset { info: AssetInfo::NativeToken { denom: offer.denom }, amount: offer.amount },
            belief_price: Some(belief_price),
            max_spread: Some(one_percent()),
            to: None,
        }),
{
    let offer_asset = Asset { info: AssetInfo::NativeToken { denom: offer.denom.clone() }, amount: offer.amount };
    PairExecuteMsg::Swap {
        offer_asset,
        belief_price: Some(belief_price),
        max_spread: Some(Decimal::from_ratio(1, 100)),
        to: None,
    }
}

} // verus!
