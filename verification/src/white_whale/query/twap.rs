//! The query of a time-weighted average price oracle.
use vstd::prelude::*;

use crate::asset::AssetInfo;

verus! {

#[derive(Clone, Debug, PartialEq)]
pub enum QueryMsg {
    /// Validates the asset and gives the average amount.
    Consult { token: AssetInfo, amount: u128 },
}

} // verus!
