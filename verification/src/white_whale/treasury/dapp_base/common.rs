//! Names that the dApps share.
use vstd::prelude::*;

verus! {

/// The suffix of a pair's address-book name.
pub const PAIR_POSTFIX: &'static str = "_pair";

pub const ANCHOR_MONEY_MARKET_ID: &'static str = "anchor_money_market";

pub const AUST_TOKEN_ID: &'static str = "aUST";

pub const ANCHOR_BLUNA_HUB_ID: &'static str = "anchor_bluna_hub";

pub const BLUNA_TOKEN_ID: &'static str = "bLuna";

} // verus!
