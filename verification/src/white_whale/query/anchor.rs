//! The queries of Anchor and their answers.
use vstd::prelude::*;

use crate::math::{Decimal256, Uint256};

verus! {

#[derive(Clone, Debug, PartialEq)]
pub enum AnchorQuery {
    EpochState { block_height: Option<u64>, distributed_interest: Option<Uint256> },
    UnbondRequests { address: String },
    WithdrawableUnbonded { address: String },
}

#[derive(Clone, Copy, Debug, PartialEq, Eq, Structural)]
pub struct EpochStateResponse {
    pub exchange_rate: Decimal256,
    pub aterra_supply: Uint256,
}

#[derive(Clone, Debug, PartialEq)]
pub struct UnbondRequestsResponse {
    pub address: String,
    pub requests: Vec<(u64, u128, u128)>,
}

#[derive(Clone, Copy, Debug, PartialEq, Eq, Structural)]
pub struct WithdrawableUnbondedResponse {
    pub withdrawable: u128,
}

} // verus!
