//! The queries of the Prism cLuna hub and their answers.
use vstd::prelude::*;

verus! {

#[derive(Clone, Debug, PartialEq)]
pub enum PrismQuery {
    UnbondRequests { address: String },
    WithdrawableUnbonded { address: String },
}

#[derive(Clone, Debug, PartialEq)]
pub struct UnbondRequestsResponse {
    pub address: String,
    pub requests: Vec<(u64, u128)>,
}

#[derive(Clone, Copy, Debug, PartialEq, Eq, Structural)]
pub struct WithdrawableUnbondedResponse {
    pub withdrawable: u128,
}

} // verus!
