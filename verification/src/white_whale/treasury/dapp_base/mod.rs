//! What every dApp of the treasury shares: its state, admin, address book and messages.

pub mod commands;
pub mod common;
pub mod msg;
pub mod queries;
pub mod state;
