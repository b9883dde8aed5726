//! Messages common to the dApps.
use vstd::prelude::*;

verus! {

#[derive(Clone, Debug, PartialEq)]
pub struct BaseInstantiateMsg {
    pub treasury_address: String,
    pub trader: String,
    pub memory_addr: String,
}

#[derive(Debug, PartialEq)]
pub enum BaseExecuteMsg {
    /// Updates the base configuration.
    UpdateConfig { treasury_address: Option<String>, trader: Option<String> },
    /// Updates the address book.
    UpdateAddressBook { to_add: Vec<(String, String)>, to_remove: Vec<String> },
    /// Sets a new admin.
    SetAdmin { admin: String },
}

#[derive(Clone, Debug, PartialEq)]
pub enum BaseQueryMsg {
    /// The dApp's state.
    Config,
    /// The address-book entry `id`.
    AddressBook { id: String },
}

#[derive(Clone, Debug, PartialEq)]
pub struct BaseStateResponse {
    pub treasury_address: String,
    pub trader: String,
}

} // verus!
