//! Messages and helpers shared by the liquidation and arbitrage contracts.

pub mod astroport_helper;
pub mod dex_arb_helper;
pub mod flashloan_helper;
pub mod helper;
pub mod mars_fields_helper;
pub mod mars_helper;
pub mod mirror_helper;
pub mod nft;
pub mod nft_minter;
pub mod terraswap_helper;
