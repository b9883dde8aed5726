//! The Terraswap pair messages that the contracts send.
use vstd::prelude::*;

use crate::asset::{Asset, AssetInfo};
use crate::math::Decimal;

verus! {

/// What a Terraswap pair executes.
#[derive(Clone, Debug, PartialEq)]
pub enum PairExecuteMsg {
    Swap {
        offer_asset: Asset,
        belief_price: Option<Decimal>,
        max_spread: Option<Decimal>,
        to: Option<String>,
    },
}

/// The hook of CW20 tokens sent to a Terraswap pair.
#[derive(Clone, Debug, PartialEq)]
pub enum PairCw20HookMsg {
    Swap { belief_price: Option<Decimal>, max_spread: Option<Decimal>, to: Option<String> },
}

/// The reserves of a Terraswap pair and its total liquidity shares.
#[derive(Clone, Debug, PartialEq)]
pub struct PoolResponse {
    pub assets: [Asset; 2],
    pub total_share: u128,
}

/// The pair of a Terraswap pool.
#[derive(Clone, Debug, PartialEq)]
pub struct PairInfo {
    pub asset_infos: [AssetInfo; 2],
    pub contract_addr: String,
    pub liquidity_token: String,
}

/// The queries of a Terraswap pair.
#[derive(Clone, Debug, PartialEq)]
pub enum PairQueryMsg {
    Pair,
    Pool,
    Simulation { offer_asset: Asset },
}

} // verus!
