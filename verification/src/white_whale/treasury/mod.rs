//! The treasury and the base of the dApps that trade for it.

pub mod dapp_base;
pub mod msg;
pub mod vault_assets;
