//! White Whale: arbitrage, liquidation-helper, vault and vesting contracts for the
//! Terra blockchain, with their decisions stated and proved over plain values.

pub mod asset;
pub mod contracts;
pub mod cosmos;
pub mod error;
pub mod liquidation_helpers;
pub mod math;
pub mod reply_data;
pub mod white_whale;
