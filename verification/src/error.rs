//! The reasons for which the contracts refuse a request.
use vstd::prelude::*;

use crate::math::Uint256;

verus! {

#[derive(Clone, Debug, PartialEq)]
pub enum ContractError {
    /// The sender may not do this.
    Unauthorized,
    /// More than the spend limit was asked for.
    TooMuchSpend,
    /// An address did not pass the chain's validation.
    InvalidAddress,
    /// A stored item or map entry that the request needs is absent.
    NotFound,
    /// The chain gave no tax cap for a denomination that is taxed.
    TaxQueryFailed,
    /// Tax is deducted from native coins only.
    CannotDeductTaxFromToken,
    /// The native coins sent differ from the amount that the message states.
    NativeTokenBalanceMismatch,
    /// Only UST can be deposited into Anchor.
    WrongCurrency,
    /// A liquidity-pool valuation was asked of a native asset.
    NativeLpToken,
    /// The pool or asset is already on the list.
    AlreadySupported,
    /// Astroport needs no pool data.
    PoolDataNotNeededForAstroport,
    /// No pair of the chosen exchange trades the asset.
    PairInfoNotFound,
    /// A callback came from another sender than the contract itself.
    CallbackFromOutside,
    /// Less UST came back than the minimum that the operation must return.
    InsufficientReturn { received: Uint256, minimum: Uint256 },
    /// The Red Bank market of the asset is not active.
    MarketNotActive,
    /// The liquidator is already registered.
    LiquidatorAlreadySupported,
    /// The liquidator is not registered.
    LiquidatorNotSupported,
    /// Only the owner can create allocations.
    OnlyOwnerCanCreateAllocations,
    /// Only the WHALE token can be deposited.
    OnlyWhaleToken,
    /// The deposit differs from the sum of the new allocations.
    DepositAmountMismatch,
    /// The user already has an allocation.
    AllocationExists,
    /// Nothing is unlocked for withdrawal.
    NoUnlockedWhale,
    /// The funds vest after this many more blocks.
    NotVestedYet { remaining_blocks: u64 },
    /// A query to another contract failed.
    QueryFailed,
    /// The reply to a sub-message could not be read.
    InvalidReply,
    /// The contract does not answer this request.
    NotImplemented,
}

} // verus!
