//! The messages and responses that the contracts hand back to the chain, as plain values.
use vstd::prelude::*;
use vstd::string::StringExecFns;

use crate::asset::Coin;
use crate::liquidation_helpers::{astroport_helper, dex_arb_helper, flashloan_helper, mars_fields_helper, mars_helper, mirror_helper, nft_minter, nft};
use crate::white_whale::{anchor, hiding_game, luna_vault, peg_arb, prism, terraswap, treasury};

verus! {

/// An address as given, with the chain's verdict on it (`addr_validate`).
#[derive(Clone, Debug, PartialEq)]
pub struct CheckedAddr {
    pub addr: String,
    pub valid: bool,
}

/// Tokens that a CW20 contract has sent to this contract, with the sender's message.
#[derive(Clone, Debug, PartialEq)]
pub struct Cw20ReceiveMsg {
    pub sender: String,
    pub amount: u128,
    pub msg: Vec<u8>,
}

#[derive(Clone, Debug, PartialEq)]
pub enum BankMsg {
    Send { to_address: String, amount: Vec<Coin> },
}

/// The message that a CW20 token contract executes.
#[derive(Debug, PartialEq)]
pub enum Cw20ExecuteMsg {
    Transfer { recipient: String, amount: u128 },
    /// Sends tokens to a contract and hands it `msg`.
    Send { contract: String, amount: u128, msg: Box<ExecutePayload> },
}

/// The body of a `WasmMsg::Execute`: what the called contract is asked to do.
#[derive(Debug, PartialEq)]
pub enum ExecutePayload {
    Cw20(Cw20ExecuteMsg),
    Anchor(anchor::AnchorMsg),
    Prism(prism::PrismMsg),
    TerraswapPair(terraswap::PairExecuteMsg),
    TerraswapCw20Hook(terraswap::PairCw20HookMsg),
    Astroport(astroport_helper::AstroportExecuteMsg),
    FlashLoan(flashloan_helper::ExecuteMsg),
    DexArb(dex_arb_helper::ExecuteMsg),
    Mars(mars_helper::ExecuteMsg),
    MarsFields(mars_fields_helper::ExecuteMsg),
    Mirror(mirror_helper::ExecuteMsg),
    MarsLiquidation(mars_helper::MarsLiquidationMsg),
    NftMinter(nft_minter::ExecuteMsg),
    Cw721(nft::Cw721ExecuteMsg),
    Treasury(treasury::msg::ExecuteMsg),
    LunaVault(luna_vault::ExecuteMsg),
    PegArb(peg_arb::ExecuteMsg),
    HidingGame(hiding_game::ExecuteMsg),
}

/// The body of a `WasmMsg::Instantiate`.
#[derive(Clone, Debug, PartialEq)]
pub enum InstantiatePayload {
    Cw721(nft::Cw721InstantiateMsg),
}

#[derive(Debug, PartialEq)]
pub enum WasmMsg {
    Execute { contract_addr: String, msg: ExecutePayload, funds: Vec<Coin> },
    Instantiate {
        admin: Option<String>,
        code_id: u64,
        msg: InstantiatePayload,
        funds: Vec<Coin>,
        label: String,
    },
}

/// The Terra module that runs a custom message.
#[derive(Clone, Copy, Debug, PartialEq, Eq, Structural)]
pub enum TerraRoute {
    Market,
    Treasury,
    Oracle,
    Wasm,
}

/// A message of the Terra chain's own modules.
#[derive(Clone, Debug, PartialEq)]
pub enum TerraMsg {
    /// A market swap of `offer_coin` for `ask_denom`.
    Swap { offer_coin: Coin, ask_denom: String },
}

/// A Terra message with the module that runs it.
#[derive(Clone, Debug, PartialEq)]
pub struct TerraMsgWrapper {
    pub route: TerraRoute,
    pub msg_data: TerraMsg,
}

#[derive(Debug, PartialEq)]
pub enum CosmosMsg {
    Bank(BankMsg),
    Wasm(WasmMsg),
    Custom(TerraMsgWrapper),
}

/// When the chain calls the contract back about a sub-message.
#[derive(Clone, Copy, Debug, PartialEq, Eq, Structural)]
pub enum ReplyOn {
    Always,
    Error,
    Success,
    Never,
}

#[derive(Debug, PartialEq)]
pub struct SubMsg {
    pub id: u64,
    pub msg: CosmosMsg,
    pub gas_limit: Option<u64>,
    pub reply_on: ReplyOn,
}

/// A key and value that a response reports to the chain's event log.
#[derive(Clone, Debug, PartialEq)]
pub struct Attribute {
    pub key: String,
    pub value: String,
}

/// The messages that a contract hands back, which the chain runs in order, and the
/// attributes that it reports.
#[derive(Debug, PartialEq)]
pub struct Response {
    pub messages: Vec<SubMsg>,
    pub attributes: Vec<Attribute>,
}

/// The attributes of a response as key and value texts.
pub open spec fn attrs(attributes: Seq<Attribute>) -> Seq<(Seq<char>, Seq<char>)> {
    attributes.map_values(|a: Attribute| (a.key@, a.value@))
}

/// A sub-message without a reply.
pub open spec fn plain(msg: CosmosMsg) -> SubMsg {
    SubMsg { id: 0, msg, gas_limit: None, reply_on: ReplyOn::Never }
}

/// A sub-message that the chain answers with no reply (`SubMsg::new`).
pub fn sub_msg(msg: CosmosMsg) -> (s: SubMsg)
    ensures
        s == plain(msg),
{
    SubMsg { id: 0, msg, gas_limit: None, reply_on: ReplyOn::Never }
}

impl Response {
    pub fn new() -> (r: Response)
        ensures
            r.messages@ == Seq::<SubMsg>::empty(),
            r.attributes@ == Seq::<Attribute>::empty(),
    {
        Response { messages: Vec::new(), attributes: Vec::new() }
    }

    /// Appends a message that needs no reply.
    pub fn add_message(self, msg: CosmosMsg) -> (r: Response)
        ensures
            r.messages@ == self.messages@.push(plain(msg)),
            r.attributes@ == self.attributes@,
    {
        let mut messages = self.messages;
        messages.push(sub_msg(msg));
        Response { messages, attributes: self.attributes }
    }

    pub fn add_submessage(self, msg: SubMsg) -> (r: Response)
        ensures
            r.messages@ == self.messages@.push(msg),
            r.attributes@ == self.attributes@,
    {
        let mut messages = self.messages;
        messages.push(msg);
        Response { messages, attributes: self.attributes }
    }

    /// Appends the attribute `key` = `value`.
    pub fn add_attribute(self, key: &str, value: String) -> (r: Response)
        ensures
            r.messages@ == self.messages@,
            attrs(r.attributes@) == attrs(self.attributes@).push((key@, value@)),
    {
        let mut attributes = self.attributes;
        attributes.push(Attribute { key: String::from_str(key), value });
        let r = Response { messages: self.messages, attributes };
        assert(attrs(r.attributes@) =~= attrs(self.attributes@).push((key@, value@)));
        r
    }
}

/// `m` executes `payload` on `contract_addr` and sends `funds` with it.
pub open spec fn is_execute(m: CosmosMsg, contract_addr: String, funds: Seq<Coin>) -> bool {
    &&& m matches CosmosMsg::Wasm(WasmMsg::Execute { contract_addr: a, msg: _, funds: f })
    &&& a == contract_addr
    &&& f@ == funds
}

/// The payload of an execute message.
pub open spec fn payload_of(m: CosmosMsg) -> ExecutePayload
    recommends
        m matches CosmosMsg::Wasm(WasmMsg::Execute { .. }),
{
    match m {
        CosmosMsg::Wasm(WasmMsg::Execute { msg, .. }) => msg,
        _ => arbitrary(),
    }
}

/// `m` executes a payload on `contract_addr` and sends no funds.
pub open spec fn is_execute_no_funds(m: CosmosMsg, contract_addr: String) -> bool {
    is_execute(m, contract_addr, Seq::empty())
}

/// `m` sends `amount` to `to_address` from the bank module.
pub open spec fn is_bank_send(m: CosmosMsg, to_address: String, amount: Seq<Coin>) -> bool {
    &&& m matches CosmosMsg::Bank(BankMsg::Send { to_address: t, amount: a })
    &&& t == to_address
    &&& a@ == amount
}

/// `m` is a CW20 `Transfer` of `amount` tokens of `token` to `recipient`.
pub open spec fn is_cw20_transfer(m: CosmosMsg, token: String, recipient: String, amount: u128) -> bool {
    &&& is_execute_no_funds(m, token)
    &&& payload_of(m) == ExecutePayload::Cw20(Cw20ExecuteMsg::Transfer { recipient, amount })
}

/// `m` is a CW20 `Send` of `amount` tokens of `token` to `contract`, with a hook for
/// which `hook` holds.
pub open spec fn is_cw20_send(m: CosmosMsg, token: String, contract: String, amount: u128) -> bool {
    &&& is_execute_no_funds(m, token)
    &&& payload_of(m) matches ExecutePayload::Cw20(Cw20ExecuteMsg::Send { contract: c, amount: a, msg: _ })
    &&& c == contract
    &&& a == amount
}

/// The hook message of a CW20 `Send`.
pub open spec fn hook_of(m: CosmosMsg) -> ExecutePayload {
    match payload_of(m) {
        ExecutePayload::Cw20(Cw20ExecuteMsg::Send { msg, .. }) => *msg,
        _ => arbitrary(),
    }
}

/// A message that executes `msg` on `contract_addr` with no funds.
pub fn execute_msg(contract_addr: String, msg: ExecutePayload) -> (m: CosmosMsg)
    ensures
        is_execute_no_funds(m, contract_addr),
        payload_of(m) == msg,
{
    CosmosMsg::Wasm(WasmMsg::Execute { contract_addr, msg, funds: Vec::new() })
}

/// A message that executes `msg` on `contract_addr` and sends one coin with it.
pub fn execute_msg_with_coin(contract_addr: String, msg: ExecutePayload, coin: Coin) -> (m: CosmosMsg)
    ensures
        is_execute(m, contract_addr, seq![coin]),
        payload_of(m) == msg,
{
    let mut funds: Vec<Coin> = Vec::new();
    funds.push(coin);
    CosmosMsg::Wasm(WasmMsg::Execute { contract_addr, msg, funds })
}

/// A bank transfer of one coin.
pub fn bank_send_coin(to_address: String, coin: Coin) -> (m: CosmosMsg)
    ensures
        is_bank_send(m, to_address, seq![coin]),
{
    let mut amount: Vec<Coin> = Vec::new();
    amount.push(coin);
    CosmosMsg::Bank(BankMsg::Send { to_address, amount })
}

/// A CW20 `Transfer` message.
pub fn cw20_transfer_msg(token: String, recipient: String, amount: u128) -> (m: CosmosMsg)
    ensures
        is_cw20_transfer(m, token, recipient, amount),
{
    execute_msg(token, ExecutePayload::Cw20(Cw20ExecuteMsg::Transfer { recipient, amount }))
}

/// A CW20 `Send` message (`build_send_cw20_token_msg`): `token` sends `amount` to
/// `contract` and hands it `hook`.
pub fn cw20_send_msg(contract: String, token: String, amount: u128, hook: ExecutePayload) -> (m: CosmosMsg)
    ensures
        is_cw20_send(m, token, contract, amount),
        hook_of(m) == hook,
{
    execute_msg(
        token,
        ExecutePayload::Cw20(Cw20ExecuteMsg::Send { contract, amount, msg: Box::new(hook) }),
    )
}

/// A market swap of `offer_coin` for `ask_denom`, run by the market module
/// (`create_swap_msg`).
pub fn create_swap_msg(offer_coin: Coin, ask_denom: String) -> (m: CosmosMsg)
    ensures
        m == CosmosMsg::Custom(
            TerraMsgWrapper { route: TerraRoute::Market, msg_data: TerraMsg::Swap { offer_coin, ask_denom } },
        ),
{
    CosmosMsg::Custom(TerraMsgWrapper { route: TerraRoute::Market, msg_data: TerraMsg::Swap { offer_coin, ask_denom } })
}

} // verus!
