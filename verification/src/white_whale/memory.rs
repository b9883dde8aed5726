//! The memory contract, which holds the address book of contracts and assets.
use vstd::prelude::*;

verus! {

/// The address of the memory contract.
#[derive(Clone, Debug, PartialEq)]
pub struct Memory {
    pub address: String,
}

} // verus!
