//! What is computed from the answers of Terraswap pairs.
use vstd::prelude::*;

use crate::math::{DECIMAL_FRACTIONAL, Decimal, ratio_of};
use crate::white_whale::terraswap::PoolResponse;

verus! {

/// The pools whose first reserve over the second is a decimal that fits.
pub open spec fn ratio_defined(pool: PoolResponse) -> bool {
    &&& pool.assets[1].amount != 0
    &&& ratio_of(pool.assets[0].amount as int, DECIMAL_FRACTIONAL as int, pool.assets[1].amount as int) <= u128::MAX
}

/// The price of the second asset of a pool in the first: first reserve over second.
pub open spec fn spec_pool_ratio(pool: PoolResponse) -> Decimal {
    Decimal { atomics: ratio_of(pool.assets[0].amount as int, DECIMAL_FRACTIONAL as int, pool.assets[1].amount as int) as u128 }
}

/// The pool's first reserve over its second (`pool_ratio`, once the pool is queried);
/// the second reserve must not be empty.
pub fn pool_ratio(pool: &PoolResponse) -> (r: Decimal)
    requires
        ratio_defined(*pool),
    ensures
        r == spec_pool_ratio(*pool),
{
    Decimal::from_ratio(pool.assets[0].amount, pool.assets[1].amount)
}

} // verus!
