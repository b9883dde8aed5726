//! The messages and answers of the Anchor mock used in tests.
use vstd::prelude::*;

use crate::asset::{Asset, AssetInfo};
use crate::cosmos::Cw20ReceiveMsg;
use crate::math::{Decimal256, Uint256};
use crate::white_whale::query::anchor::EpochStateResponse;

verus! {

#[derive(Clone, Copy, Debug, PartialEq, Eq, Structural)]
pub struct MockInstantiateMsg {}

#[derive(Clone, Debug, PartialEq)]
pub struct PingMsg {
    pub payload: String,
}

#[derive(Clone, Debug, PartialEq)]
pub enum MockExecuteMsg {
    Receive(Cw20ReceiveMsg),
}

#[derive(Clone, Debug, PartialEq)]
pub struct PoolResponse {
    pub assets: [Asset; 2],
    pub total_share: u128,
}

#[derive(Clone, Debug, PartialEq)]
pub struct PairResponse {
    pub asset_infos: [AssetInfo; 2],
    pub contract_addr: String,
    pub liquidity_token: String,
}

/// The epoch state that the mock answers: an exchange rate of 1.2 and a supply of one
/// million.
pub fn mock_epoch_state() -> (r: EpochStateResponse)
    ensures
        r.exchange_rate.atomics@ == 1_200_000_000_000_000_000,
        r.aterra_supply@ == 1_000_000,
{
    EpochStateResponse {
        exchange_rate: Decimal256 { atomics: Uint256::from_u128(1_200_000_000_000_000_000) },
        aterra_supply: Uint256::from_u128(1_000_000),
    }
}

} // verus!
