//! The contracts: for each, its stored state and the decisions of its entry points, taken
//! on the state, the request and what the chain answered to the contract's queries.

pub mod arbitrage_helper;
pub mod mars_helper;
pub mod nft_minter;
pub mod stablecoin_vault;
pub mod test_contract;
pub mod vesting;
pub mod vesting_contract;
pub mod war_chest;
pub mod whale_lp_staking;
