//! The war chest: it holds WHALE tokens that governance may spend, up to a spend limit per
//! transfer.
use vstd::prelude::*;
use vstd::string::StringExecFns;

use crate::cosmos::{Response, attrs, cw20_transfer_msg, is_cw20_transfer, plain};
use crate::error::ContractError;
use crate::math::{decimal, u128_to_string};

pub mod vault_assets;

verus! {

#[derive(Clone, Debug, PartialEq)]
pub struct InstantiateMsg {
    pub gov_contract: String,
    pub whale_token: String,
    pub spend_limit: u128,
}

#[derive(Clone, Debug, PartialEq)]
pub enum ExecuteMsg {
    /// Sends `amount` WHALE to `recipient`.
    Spend { recipient: String, amount: u128 },
    /// Sets the largest amount that one `Spend` may send.
    UpdateSpendLimit { spend_limit: u128 },
}

#[derive(Clone, Copy, Debug, PartialEq, Eq, Structural)]
pub enum QueryMsg {
    GetConfig,
}

#[derive(Clone, Debug, PartialEq)]
pub struct ConfigResponse {
    pub gov_contract: String,
    pub whale_token: String,
    pub spend_limit: u128,
}

/// The war chest's configuration: governance, which alone may spend, the WHALE token and
/// the spend limit.
#[derive(Clone, Debug, PartialEq)]
pub struct State {
    pub gov_contract: String,
    pub whale_token: String,
    pub spend_limit: u128,
}

/// The state at instantiation. `addresses_valid` is the chain's verdict on the two
/// addresses.
pub fn instantiate(msg: InstantiateMsg, addresses_valid: bool) -> (r: Result<State, ContractError>)
    ensures
        !addresses_valid ==> r == Err::<State, ContractError>(ContractError::InvalidAddress),
        addresses_valid ==> r == Ok::<State, ContractError>(
            State { gov_contract: msg.gov_contract, whale_token: msg.whale_token, spend_limit: msg.spend_limit },
        ),
{
    if !addresses_valid {
        return Err(ContractError::InvalidAddress);
    }
    Ok(State { gov_contract: msg.gov_contract, whale_token: msg.whale_token, spend_limit: msg.spend_limit })
}

/// Whether `sender` may have the war chest send `amount`: governance may, up to the spend
/// limit.
pub open spec fn spend_allowed(state: State, sender: Seq<char>, amount: u128) -> bool {
    sender == state.gov_contract@ && amount <= state.spend_limit
}

/// The answer to an allowed transfer: one CW20 transfer of `amount` WHALE to `recipient`,
/// reported as action `spend` with its recipient and amount.
pub open spec fn spend_answer(resp: Response, state: State, recipient: String, amount: u128) -> bool {
    &&& resp.messages@.len() == 1
    &&& resp.messages@[0] == plain(resp.messages@[0].msg)
    &&& is_cw20_transfer(resp.messages@[0].msg, state.whale_token, recipient, amount)
    &&& attrs(resp.attributes@) == seq![
        ("action"@, "spend"@),
        ("recipient"@, recipient@),
        ("amount"@, decimal(amount as nat)),
    ]
}

/// The answer to a new spend limit: no message, the action and the previous and new
/// limits.
pub open spec fn spend_limit_answer(resp: Response, previous: u128, spend_limit: u128) -> bool {
    &&& resp.messages@.len() == 0
    &&& attrs(resp.attributes@) == seq![
        ("action"@, "update_spend_limit"@),
        ("previous spend limit"@, decimal(previous as nat)),
        ("spend limit"@, decimal(spend_limit as nat)),
    ]
}

/// Sends `amount` WHALE to `recipient`; only governance may, and no more than the spend
/// limit.
pub fn spend(state: &State, sender: &String, recipient: String, amount: u128) -> (r: Result<Response, ContractError>)
    ensures
        sender@ != state.gov_contract@ ==> r == Err::<Response, ContractError>(ContractError::Unauthorized),
        sender@ == state.gov_contract@ && state.spend_limit < amount ==> r == Err::<Response, ContractError>(
            ContractError::TooMuchSpend,
        ),
        r is Ok <==> spend_allowed(*state, sender@, amount),
        r matches Ok(resp) ==> spend_answer(resp, *state, recipient, amount),
{
    if *sender != state.gov_contract {
        return Err(ContractError::Unauthorized);
    }
    if state.spend_limit < amount {
        return Err(ContractError::TooMuchSpend);
    }
    let resp = Response::new().add_message(cw20_transfer_msg(state.whale_token.clone(), recipient.clone(), amount))
        .add_attribute("action", String::from_str("spend")).add_attribute("recipient", recipient.clone())
        .add_attribute("amount", u128_to_string(amount));
    assert(attrs(resp.attributes@) =~= seq![
        ("action"@, "spend"@),
        ("recipient"@, recipient@),
        ("amount"@, decimal(amount as nat)),
    ]);
    Ok(resp)
}

/// Sets a new spend limit; only governance may.
pub fn update_spend_limit(state: &mut State, sender: &String, spend_limit: u128) -> (r: Result<Response, ContractError>)
    ensures
        sender@ != old(state).gov_contract@ ==> r == Err::<Response, ContractError>(ContractError::Unauthorized)
            && *final(state) == *old(state),
        sender@ == old(state).gov_contract@ ==> (r matches Ok(resp) && spend_limit_answer(
            resp,
            old(state).spend_limit,
            spend_limit,
        )) && *final(state) == (State { spend_limit, ..*old(state) }),
{
    if *sender != state.gov_contract {
        return Err(ContractError::Unauthorized);
    }
    let previous = state.spend_limit;
    state.spend_limit = spend_limit;
    let resp = Response::new().add_attribute("action", String::from_str("update_spend_limit")).add_attribute(
        "previous spend limit",
        u128_to_string(previous),
    ).add_attribute("spend limit", u128_to_string(spend_limit));
    assert(attrs(resp.attributes@) =~= seq![
        ("action"@, "update_spend_limit"@),
        ("previous spend limit"@, decimal(previous as nat)),
        ("spend limit"@, decimal(spend_limit as nat)),
    ]);
    Ok(resp)
}

/// Runs an execute message.
pub fn execute(state: &mut State, sender: &String, msg: ExecuteMsg) -> (r: Result<Response, ContractError>)
    ensures
        match msg {
            ExecuteMsg::Spend { recipient, amount } => {
                &&& *final(state) == *old(state)
                &&& r is Ok <==> spend_allowed(*old(state), sender@, amount)
                &&& sender@ != old(state).gov_contract@ ==> r == Err::<Response, ContractError>(
                    ContractError::Unauthorized,
                )
                &&& sender@ == old(state).gov_contract@ && old(state).spend_limit < amount ==> r == Err::<
                    Response,
                    ContractError,
                >(ContractError::TooMuchSpend)
                &&& r matches Ok(resp) ==> spend_answer(resp, *old(state), recipient, amount)
            },
            ExecuteMsg::UpdateSpendLimit { spend_limit } => {
                &&& sender@ != old(state).gov_contract@ ==> r == Err::<Response, ContractError>(
                    ContractError::Unauthorized,
                ) && *final(state) == *old(state)
                &&& sender@ == old(state).gov_contract@ ==> (r matches Ok(resp) && spend_limit_answer(
                    resp,
                    old(state).spend_limit,
                    spend_limit,
                )) && *final(state) == (State { spend_limit, ..*old(state) })
            },
        },
{
    match msg {
        ExecuteMsg::Spend { recipient, amount } => spend(state, sender, recipient, amount),
        ExecuteMsg::UpdateSpendLimit { spend_limit } => update_spend_limit(state, sender, spend_limit),
    }
}

/// The configuration, as the query answers it.
pub fn query_config(state: &State) -> (r: ConfigResponse)
    ensures
        r == (ConfigResponse {
            gov_contract: state.gov_contract,
            whale_token: state.whale_token,
            spend_limit: state.spend_limit,
        }),
{
    ConfigResponse {
        gov_contract: state.gov_contract.clone(),
        whale_token: state.whale_token.clone(),
        spend_limit: state.spend_limit,
    }
}

/// Once governance sets a spend limit, a transfer is allowed exactly when it is
/// governance's and at most that limit; nobody else's transfer is ever allowed.
pub proof fn law_spend_limit_governs(state: State, spend_limit: u128, sender: Seq<char>, amount: u128)
    ensures
        spend_allowed(State { spend_limit, ..state }, state.gov_contract@, amount) <==> amount <= spend_limit,
        sender != state.gov_contract@ ==> !spend_allowed(State { spend_limit, ..state }, sender, amount),
{
}

} // verus!
