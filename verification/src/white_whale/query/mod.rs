//! Queries to other contracts: the messages, and what is computed from the answers.

pub mod anchor;
pub mod memory;
pub mod prism;
pub mod terraswap;
pub mod twap;
