//! The queries that every dApp answers.
use vstd::prelude::*;

use crate::error::ContractError;
use crate::white_whale::treasury::dapp_base::msg::{BaseQueryMsg, BaseStateResponse};
use crate::white_whale::treasury::dapp_base::state::{AddressBook, BaseState};

verus! {

/// The answer to a base query.
#[derive(Clone, Debug, PartialEq)]
pub enum BaseQueryResponse {
    Config(BaseStateResponse),
    AddressBook(String),
}

/// Answers the queries that every dApp shares.
pub fn handle_base_query(state: &BaseState, book: &AddressBook, query: BaseQueryMsg) -> (r: Result<BaseQueryResponse, ContractError>)
    ensures
        match query {
            BaseQueryMsg::Config => r == Ok::<BaseQueryResponse, ContractError>(BaseQueryResponse::Config(BaseStateResponse {
                treasury_address: state.treasury_address,
                trader: state.trader,
            })),
            BaseQueryMsg::AddressBook { id } => match book.lookup(id@) {
                Some(a) => r == Ok::<BaseQueryResponse, ContractError>(BaseQueryResponse::AddressBook(a)),
                None => r == Err::<BaseQueryResponse, ContractError>(ContractError::NotFound),
            },
        },
{
    match query {
        BaseQueryMsg::Config => Ok(BaseQueryResponse::Config(try_query_config(state))),
        BaseQueryMsg::AddressBook { id } => match try_query_addressbook(book, &id) {
            Ok(a) => Ok(BaseQueryResponse::AddressBook(a)),
            Err(e) => Err(e),
        },
    }
}

/// The dApp's treasury address and trader.
pub fn try_query_config(state: &BaseState) -> (r: BaseStateResponse)
    ensures
        r == (BaseStateResponse { treasury_address: state.treasury_address, trader: state.trader }),
{
    BaseStateResponse { treasury_address: state.treasury_address.clone(), trader: state.trader.clone() }
}

/// The address-book entry `id`.
pub fn try_query_addressbook(book: &AddressBook, id: &String) -> (r: Result<String, ContractError>)
    ensures
        match book.lookup(id@) {
            Some(a) => r == Ok::<String, ContractError>(a),
            None => r == Err::<String, ContractError>(ContractError::NotFound),
        },
{
    match book.get(id) {
        Some(a) => Ok(a),
        None => Err(ContractError::NotFound),
    }
}

} // verus!
