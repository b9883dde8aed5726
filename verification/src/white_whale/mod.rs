//! The shared White Whale package: denominations, fees, messages and vault helpers.

pub mod anchor;
pub mod convert;
pub mod denom;
pub mod fee;
pub mod hiding_game;
pub mod luna_vault;
pub mod memory;
pub mod msg;
pub mod peg_arb;
pub mod prism;
pub mod query;
pub mod terraswap;
pub mod test_helpers;
pub mod treasury;
