//! The liquidation NFT minter: it creates one CW721 collection per registered liquidator
//! contract and mints a token to each user whose position that liquidator liquidated.
use vstd::prelude::*;
use vstd::string::StringExecFns;

use crate::cosmos::{
    CosmosMsg, ExecutePayload, InstantiatePayload, ReplyOn, Response, SubMsg, WasmMsg, attrs, execute_msg,
    is_execute_no_funds, payload_of, plain,
};
use crate::error::ContractError;
use crate::liquidation_helpers::nft::{
    Cw721ExecuteMsg, Cw721InstantiateMsg, Metadata, MintMsg, Trait, copy_opt_string, same_metadata,
};
use crate::liquidation_helpers::nft_minter::{ConfigResponse, InstantiateMsg, LiquidationHelpersInfo};
use crate::math::{Uint256, decimal, law_decimal_injective, u64_to_string};

verus! {

#[derive(Clone, Debug, PartialEq)]
pub struct Config {
    pub owner: String,
    pub cw721_code_id: u64,
    pub whitewhale_liquidators: Vec<LiquidationHelpersInfo>,
}

/// What a liquidator's registration keeps until the chain reports its new collection.
#[derive(Clone, Debug, PartialEq)]
pub struct TmpNftInfo {
    pub liquidator_addr: String,
    pub metadata: Metadata,
    pub token_uri: String,
}

/// The configuration at instantiation. `owner_valid` is the chain's verdict on the owner's
/// address.
pub fn instantiate(msg: InstantiateMsg, owner_valid: bool) -> (r: Result<Config, ContractError>)
    ensures
        !owner_valid ==> r == Err::<Config, ContractError>(ContractError::InvalidAddress),
        owner_valid ==> (r matches Ok(config) && config.owner == msg.owner && config.cw721_code_id
            == msg.cw721_code_id && config.whitewhale_liquidators@.len() == 0),
{
    if !owner_valid {
        return Err(ContractError::InvalidAddress);
    }
    Ok(Config { owner: msg.owner, cw721_code_id: msg.cw721_code_id, whitewhale_liquidators: Vec::new() })
}

/// Hands the contract to a new owner; only the owner may. `new_owner_valid` is the chain's
/// verdict on the new owner's address.
pub fn handle_update_owner(
    config: &mut Config,
    sender: &String,
    new_owner: String,
    new_owner_valid: bool,
) -> (r: Result<Response, ContractError>)
    ensures
        sender@ != old(config).owner@ ==> r == Err::<Response, ContractError>(ContractError::Unauthorized),
        sender@ == old(config).owner@ && !new_owner_valid ==> r == Err::<Response, ContractError>(
            ContractError::InvalidAddress,
        ),
        r is Ok <==> sender@ == old(config).owner@ && new_owner_valid,
        r is Err ==> *final(config) == *old(config),
        r matches Ok(resp) ==> resp.messages@.len() == 0 && attrs(resp.attributes@) == seq![
            ("action"@, "nft_minter::ExecuteMsg::UpdateOwner"@),
        ] && *final(config) == (Config { owner: new_owner, ..*old(config) }),
{
    if *sender != config.owner {
        return Err(ContractError::Unauthorized);
    }
    if !new_owner_valid {
        return Err(ContractError::InvalidAddress);
    }
    config.owner = new_owner;
    let resp = Response::new().add_attribute("action", String::from_str("nft_minter::ExecuteMsg::UpdateOwner"));
    assert(attrs(resp.attributes@) =~= seq![("action"@, "nft_minter::ExecuteMsg::UpdateOwner"@)]);
    Ok(resp)
}

/// Whether `liquidator` is registered.
pub open spec fn is_registered(liquidators: Seq<LiquidationHelpersInfo>, liquidator: Seq<char>) -> bool {
    exists|i: int| 0 <= i < liquidators.len() && (#[trigger] liquidators[i]).liquidator_contract@ == liquidator
}

fn find_registered(liquidators: &Vec<LiquidationHelpersInfo>, liquidator: &String) -> (b: bool)
    ensures
        b == is_registered(liquidators@, liquidator@),
{
    let mut i: usize = 0;
    while i < liquidators.len()
        invariant
            i <= liquidators@.len(),
            forall|j: int| 0 <= j < i ==> (#[trigger] liquidators@[j]).liquidator_contract@ != liquidator@,
        decreases liquidators@.len() - i,
    {
        if liquidators[i].liquidator_contract == *liquidator {
            return true;
        }
        i = i + 1;
    }
    false
}

/// `s` creates the liquidator's CW721 collection, named after its metadata and minted by
/// this contract, and asks for a reply with id 1 once it exists.
pub open spec fn is_collection_instantiation(
    s: SubMsg,
    code_id: u64,
    name: String,
    symbol: String,
    contract_address: String,
) -> bool {
    &&& s.id == 1
    &&& s.gas_limit is None
    &&& s.reply_on == ReplyOn::Success
    &&& s.msg matches CosmosMsg::Wasm(WasmMsg::Instantiate { admin, code_id: c, msg, funds, label })
    &&& admin is None
    &&& c == code_id
    &&& msg == InstantiatePayload::Cw721(Cw721InstantiateMsg { name, symbol, minter: contract_address })
    &&& funds@.len() == 0
    &&& label@.len() == 0
}

/// Registers a liquidator contract: creates its NFT collection, with a reply once the
/// collection exists; only the owner may, and only once per liquidator. The metadata must
/// name the collection. The returned `TmpNftInfo` is kept for the reply.
pub fn handle_initialize_liquidator(
    config: &Config,
    sender: &String,
    contract_address: &String,
    new_liquidator: String,
    metadata: Metadata,
    symbol: String,
    token_uri: String,
) -> (r: Result<(TmpNftInfo, Response), ContractError>)
    requires
        sender@ == config.owner@ && !is_registered(config.whitewhale_liquidators@, new_liquidator@)
            ==> metadata.name is Some,
    ensures
        sender@ != config.owner@ ==> r == Err::<(TmpNftInfo, Response), ContractError>(ContractError::Unauthorized),
        sender@ == config.owner@ && is_registered(config.whitewhale_liquidators@, new_liquidator@) ==> r == Err::<
            (TmpNftInfo, Response),
            ContractError,
        >(ContractError::LiquidatorAlreadySupported),
        r is Ok <==> sender@ == config.owner@ && !is_registered(config.whitewhale_liquidators@, new_liquidator@),
        r matches Ok((tmp, resp)) ==> tmp == (TmpNftInfo { liquidator_addr: new_liquidator, metadata, token_uri })
            && resp.messages@.len() == 1 && is_collection_instantiation(
            resp.messages@[0],
            config.cw721_code_id,
            metadata.name->0,
            symbol,
            *contract_address,
        ) && attrs(resp.attributes@) == seq![
            ("action"@, "add_liquidator"@),
            ("liquidator_address"@, new_liquidator@),
            ("nft_symbol"@, symbol@),
        ],
{
    if *sender != config.owner {
        return Err(ContractError::Unauthorized);
    }
    if find_registered(&config.whitewhale_liquidators, &new_liquidator) {
        return Err(ContractError::LiquidatorAlreadySupported);
    }
    let name = match &metadata.name {
        Some(n) => n.clone(),
        None => {
            assert(false);
            String::new()
        },
    };
    let resp = Response::new().add_attribute("action", String::from_str("add_liquidator")).add_attribute(
        "liquidator_address",
        new_liquidator.clone(),
    ).add_attribute("nft_symbol", symbol.clone());
    assert(attrs(resp.attributes@) =~= seq![
        ("action"@, "add_liquidator"@),
        ("liquidator_address"@, new_liquidator@),
        ("nft_symbol"@, symbol@),
    ]);
    let instantiate = SubMsg {
        id: 1,
        gas_limit: None,
        msg: CosmosMsg::Wasm(
            WasmMsg::Instantiate {
                admin: None,
                code_id: config.cw721_code_id,
                msg: InstantiatePayload::Cw721(
                    Cw721InstantiateMsg { name, symbol, minter: contract_address.clone() },
                ),
                funds: Vec::new(),
                label: String::new(),
            },
        ),
        reply_on: ReplyOn::Success,
    };
    let tmp = TmpNftInfo { liquidator_addr: new_liquidator, metadata, token_uri };
    Ok((tmp, resp.add_submessage(instantiate)))
}

/// Once the chain reports the new collection, the liquidator is registered, with no token
/// minted yet: `reply` appends this registration.
pub proof fn law_reply_registers(
    liquidators: Seq<LiquidationHelpersInfo>,
    tmp: TmpNftInfo,
    nft_contract: String,
)
    ensures
        is_registered(
            liquidators.push(
                LiquidationHelpersInfo {
                    liquidator_contract: tmp.liquidator_addr,
                    nft_contract_addr: nft_contract,
                    total_minted: 0,
                    metadata: tmp.metadata,
                    token_uri: tmp.token_uri,
                },
            ),
            tmp.liquidator_addr@,
        ),
{
    let l = liquidators.push(
        LiquidationHelpersInfo {
            liquidator_contract: tmp.liquidator_addr,
            nft_contract_addr: nft_contract,
            total_minted: 0,
            metadata: tmp.metadata,
            token_uri: tmp.token_uri,
        },
    );
    assert(l[liquidators.len() as int].liquidator_contract@ == tmp.liquidator_addr@);
}

/// Records the collection that the chain created for the liquidator being registered.
/// `tmp` is what the registration kept, `None` when nothing was kept; `nft_contract` is the
/// collection's address that `reply_data::instantiated_address` reads from the reply's
/// data, `None` when the data is malformed.
pub fn reply(
    config: &mut Config,
    tmp: Option<TmpNftInfo>,
    nft_contract: Option<String>,
) -> (r: Result<Response, ContractError>)
    ensures
        tmp is None ==> r == Err::<Response, ContractError>(ContractError::NotFound),
        tmp is Some && nft_contract is None ==> r == Err::<Response, ContractError>(ContractError::InvalidReply),
        r is Ok <==> tmp is Some && nft_contract is Some,
        r is Err ==> *final(config) == *old(config),
        r matches Ok(resp) ==> resp.messages@.len() == 0 && attrs(resp.attributes@) == seq![
            ("nft_address"@, nft_contract->0@),
        ] && final(config).owner == old(config).owner
            && final(config).cw721_code_id == old(config).cw721_code_id
            && final(config).whitewhale_liquidators@ == old(config).whitewhale_liquidators@.push(
            LiquidationHelpersInfo {
                liquidator_contract: tmp->0.liquidator_addr,
                nft_contract_addr: nft_contract->0,
                total_minted: 0,
                metadata: tmp->0.metadata,
                token_uri: tmp->0.token_uri,
            },
        ),
{
    let tmp_nft_info = match tmp {
        Some(t) => t,
        None => return Err(ContractError::NotFound),
    };
    let nft_contract_addr = match nft_contract {
        Some(a) => a,
        None => return Err(ContractError::InvalidReply),
    };
    let resp = Response::new().add_attribute("nft_address", nft_contract_addr.clone());
    assert(attrs(resp.attributes@) =~= seq![("nft_address"@, nft_contract_addr@)]);
    config.whitewhale_liquidators.push(
        LiquidationHelpersInfo {
            liquidator_contract: tmp_nft_info.liquidator_addr,
            nft_contract_addr,
            total_minted: 0,
            metadata: tmp_nft_info.metadata,
            token_uri: tmp_nft_info.token_uri,
        },
    );
    Ok(resp)
}

/// What a matching registration becomes: each field that the request gives is replaced.
pub open spec fn updated_entry(
    e: LiquidationHelpersInfo,
    new_liquidator: Option<String>,
    metadata: Option<Metadata>,
    token_uri: Option<String>,
    n: LiquidationHelpersInfo,
) -> bool {
    &&& n.liquidator_contract == (match new_liquidator {
        Some(a) => a,
        None => e.liquidator_contract,
    })
    &&& n.nft_contract_addr == e.nft_contract_addr
    &&& n.total_minted == e.total_minted
    &&& match metadata {
        Some(m) => same_metadata(n.metadata, m),
        None => n.metadata == e.metadata,
    }
    &&& n.token_uri == (match token_uri {
        Some(u) => u,
        None => e.token_uri,
    })
}

/// The attributes that report the update of one matching registration: the new
/// liquidator, that the metadata changed, and the new token URI, each when given.
pub open spec fn entry_update_attrs(
    new_liquidator: Option<String>,
    metadata: Option<Metadata>,
    token_uri: Option<String>,
) -> Seq<(Seq<char>, Seq<char>)> {
    new_liquidator_attr(new_liquidator) + metadata_attr(metadata) + token_uri_attr(token_uri)
}

pub open spec fn new_liquidator_attr(new_liquidator: Option<String>) -> Seq<(Seq<char>, Seq<char>)> {
    match new_liquidator {
        Some(a) => seq![("new_liquidator"@, a@)],
        None => Seq::empty(),
    }
}

pub open spec fn metadata_attr(metadata: Option<Metadata>) -> Seq<(Seq<char>, Seq<char>)> {
    match metadata {
        Some(_) => seq![("metadata_updated"@, "true"@)],
        None => Seq::empty(),
    }
}

pub open spec fn token_uri_attr(token_uri: Option<String>) -> Seq<(Seq<char>, Seq<char>)> {
    match token_uri {
        Some(u) => seq![("updated_token_uri"@, u@)],
        None => Seq::empty(),
    }
}

/// The attributes that report the update of the registrations of `cur_liquidator` among
/// `liquidators`, one report per match, in order.
pub open spec fn metadata_update_attrs(
    liquidators: Seq<LiquidationHelpersInfo>,
    cur_liquidator: Seq<char>,
    new_liquidator: Option<String>,
    metadata: Option<Metadata>,
    token_uri: Option<String>,
) -> Seq<(Seq<char>, Seq<char>)>
    decreases liquidators.len(),
{
    if liquidators.len() == 0 {
        Seq::empty()
    } else {
        metadata_update_attrs(liquidators.drop_last(), cur_liquidator, new_liquidator, metadata, token_uri) + (
        if liquidators.last().liquidator_contract@ == cur_liquidator {
            entry_update_attrs(new_liquidator, metadata, token_uri)
        } else {
            Seq::empty()
        })
    }
}

/// Updates every registration of `cur_liquidator` with the fields that the request gives;
/// only the owner may, and at least one registration must match.
pub fn handle_update_metadata(
    config: &mut Config,
    sender: &String,
    cur_liquidator: String,
    new_liquidator: Option<String>,
    metadata: Option<Metadata>,
    token_uri: Option<String>,
) -> (r: Result<Response, ContractError>)
    ensures
        sender@ != old(config).owner@ ==> r == Err::<Response, ContractError>(ContractError::Unauthorized),
        sender@ == old(config).owner@ && !is_registered(old(config).whitewhale_liquidators@, cur_liquidator@) ==> r
            == Err::<Response, ContractError>(ContractError::LiquidatorNotSupported),
        r is Ok <==> sender@ == old(config).owner@ && is_registered(old(config).whitewhale_liquidators@, cur_liquidator@),
        r is Err ==> *final(config) == *old(config),
        r matches Ok(resp) ==> resp.messages@.len() == 0 && attrs(resp.attributes@) == seq![
            ("action"@, "updated_Liquidator"@),
            ("liquidator"@, "cur_liquidator"@),
        ] + metadata_update_attrs(
            old(config).whitewhale_liquidators@,
            cur_liquidator@,
            new_liquidator,
            metadata,
            token_uri,
        ) && final(config).owner == old(config).owner
            && final(config).cw721_code_id == old(config).cw721_code_id
            && final(config).whitewhale_liquidators@.len() == old(config).whitewhale_liquidators@.len()
            && forall|i: int| #![trigger final(config).whitewhale_liquidators@[i]]
                0 <= i < old(config).whitewhale_liquidators@.len() ==> if old(config).whitewhale_liquidators@[i].liquidator_contract@
                    == cur_liquidator@ {
                    updated_entry(
                        old(config).whitewhale_liquidators@[i],
                        new_liquidator,
                        metadata,
                        token_uri,
                        final(config).whitewhale_liquidators@[i],
                    )
                } else {
                    final(config).whitewhale_liquidators@[i] == old(config).whitewhale_liquidators@[i]
                },
{
    if *sender != config.owner {
        return Err(ContractError::Unauthorized);
    }
    if !find_registered(&config.whitewhale_liquidators, &cur_liquidator) {
        return Err(ContractError::LiquidatorNotSupported);
    }
    let ghost before = config.whitewhale_liquidators@;
    let mut resp = Response::new().add_attribute("action", String::from_str("updated_Liquidator")).add_attribute(
        "liquidator",
        String::from_str("cur_liquidator"),
    );
    let ghost head = seq![("action"@, "updated_Liquidator"@), ("liquidator"@, "cur_liquidator"@)];
    assert(attrs(resp.attributes@) =~= head);
    assert(before.subrange(0, 0) =~= Seq::<LiquidationHelpersInfo>::empty());
    let n = config.whitewhale_liquidators.len();
    let mut i: usize = 0;
    while i < n
        invariant
            n == before.len(),
            resp.messages@.len() == 0,
            attrs(resp.attributes@) == head + metadata_update_attrs(
                before.subrange(0, i as int),
                cur_liquidator@,
                new_liquidator,
                metadata,
                token_uri,
            ),
            i <= n,
            config.whitewhale_liquidators@.len() == n,
            config.owner == old(config).owner,
            config.cw721_code_id == old(config).cw721_code_id,
            before == old(config).whitewhale_liquidators@,
            forall|j: int| #![trigger config.whitewhale_liquidators@[j]]
                0 <= j < i ==> if before[j].liquidator_contract@ == cur_liquidator@ {
                    updated_entry(before[j], new_liquidator, metadata, token_uri, config.whitewhale_liquidators@[j])
                } else {
                    config.whitewhale_liquidators@[j] == before[j]
                },
            forall|j: int| i <= j < n ==> #[trigger] config.whitewhale_liquidators@[j] == before[j],
        decreases n - i,
    {
        let ghost done = attrs(resp.attributes@);
        assert(before.subrange(0, i + 1).drop_last() =~= before.subrange(0, i as int));
        if config.whitewhale_liquidators[i].liquidator_contract == cur_liquidator {
            if let Some(a) = &new_liquidator {
                config.whitewhale_liquidators[i].liquidator_contract = a.clone();
                resp = resp.add_attribute("new_liquidator", a.clone());
            }
            let ghost after_liquidator = attrs(resp.attributes@);
            if let Some(m) = &metadata {
                config.whitewhale_liquidators[i].metadata = m.duplicate();
                resp = resp.add_attribute("metadata_updated", String::from_str("true"));
            }
            let ghost after_metadata = attrs(resp.attributes@);
            if let Some(u) = &token_uri {
                config.whitewhale_liquidators[i].token_uri = u.clone();
                resp = resp.add_attribute("updated_token_uri", u.clone());
            }
            proof {
                let l = new_liquidator_attr(new_liquidator);
                let m = metadata_attr(metadata);
                let u = token_uri_attr(token_uri);
                assert(after_liquidator =~= done + l);
                assert(after_metadata =~= done + l + m);
                assert(attrs(resp.attributes@) =~= done + l + m + u);
                assert(attrs(resp.attributes@) =~= done + entry_update_attrs(new_liquidator, metadata, token_uri));
            }
        } else {
            assert(attrs(resp.attributes@) =~= done + Seq::<(Seq<char>, Seq<char>)>::empty());
        }
        i = i + 1;
    }
    assert(before.subrange(0, n as int) =~= before);
    Ok(resp)
}

/// The name of the `token_id`-th token of a collection named `name`: `name #token_id`.
pub open spec fn token_name(name: Seq<char>, token_id: u64) -> Seq<char> {
    name + seq![' ', '#'] + decimal(token_id as nat)
}

/// The tokens of a collection have distinct names and identifiers: the `a`-th and the
/// `b`-th token of a collection share neither unless they are the same token.
pub proof fn law_token_names_distinct(name: Seq<char>, a: u64, b: u64)
    requires
        a != b,
    ensures
        token_name(name, a) != token_name(name, b),
        decimal(a as nat) != decimal(b as nat),
{
    if decimal(a as nat) == decimal(b as nat) {
        law_decimal_injective(a as nat, b as nat);
    }
    if token_name(name, a) == token_name(name, b) {
        let p = name + seq![' ', '#'];
        assert(token_name(name, a).subrange(p.len() as int, token_name(name, a).len() as int) =~= decimal(a as nat));
        assert(token_name(name, b).subrange(p.len() as int, token_name(name, b).len() as int) =~= decimal(b as nat));
        law_decimal_injective(a as nat, b as nat);
    }
}

/// An attribute without a display type.
pub open spec fn is_plain_trait(t: Trait, kind: Seq<char>, value: Seq<char>) -> bool {
    &&& t.display_type is None
    &&& t.trait_type@ == kind
    &&& t.value@ == value
}

/// `m` mints token `token_id` of the collection at `nft_contract` to `user_addr`, named
/// after the collection's metadata, with the image `token_uri`, and with three attributes:
/// the liquidated user, the amount liquidated and the time of the liquidation.
pub open spec fn is_liquidation_mint(
    m: CosmosMsg,
    nft_contract: String,
    timestamp: u64,
    token_id: u64,
    token_uri: String,
    metadata: Metadata,
    user_addr: String,
    liquidated_amount: Uint256,
) -> bool {
    &&& is_execute_no_funds(m, nft_contract)
    &&& payload_of(m) matches ExecutePayload::Cw721(Cw721ExecuteMsg::Mint(mint))
    &&& mint.token_id@ == decimal(token_id as nat)
    &&& mint.owner == user_addr
    &&& mint.name@ == token_name(metadata.name->0@, token_id)
    &&& mint.description == metadata.description
    &&& mint.image == Some(token_uri)
    &&& mint.extension.image == metadata.image
    &&& mint.extension.image_data is None
    &&& mint.extension.external_url is None
    &&& mint.extension.description == metadata.description
    &&& mint.extension.name matches Some(n) && n@ == token_name(metadata.name->0@, token_id)
    &&& mint.extension.attributes matches Some(a) && a@.len() == 3
        && is_plain_trait(a@[0], "liquidated_user"@, user_addr@)
        && is_plain_trait(a@[1], "liquidated_amount"@, decimal(liquidated_amount@))
        && is_plain_trait(a@[2], "timestamp"@, decimal(timestamp as nat))
    &&& mint.extension.background_color is None
    &&& mint.extension.animation_url is None
    &&& mint.extension.youtube_url is None
}

/// The token's name, `name #token_id`.
fn token_name_string(name: &String, token_id: u64) -> (s: String)
    ensures
        s@ == token_name(name@, token_id),
{
    let mut s = name.clone();
    s.append(" #");
    let id = u64_to_string(token_id);
    s.append(id.as_str());
    proof {
        reveal_strlit(" #");
    }
    s
}

/// The message that mints token `token_id` of a liquidator's collection to the liquidated
/// user (`build_mint_msg`). The metadata must name the collection.
pub fn build_mint_msg(
    timestamp: u64,
    nft_contract_addr: String,
    token_id: u64,
    token_uri: String,
    metadata: Metadata,
    user_addr: String,
    liquidated_amount: Uint256,
) -> (m: CosmosMsg)
    requires
        metadata.name is Some,
    ensures
        is_liquidation_mint(m, nft_contract_addr, timestamp, token_id, token_uri, metadata, user_addr, liquidated_amount),
{
    let collection_name = match &metadata.name {
        Some(n) => n.clone(),
        None => {
            assert(false);
            String::new()
        },
    };
    let mut attributes_vec: Vec<Trait> = Vec::new();
    attributes_vec.push(
        Trait { display_type: None, trait_type: String::from_str("liquidated_user"), value: user_addr.clone() },
    );
    attributes_vec.push(
        Trait {
            display_type: None,
            trait_type: String::from_str("liquidated_amount"),
            value: liquidated_amount.to_string(),
        },
    );
    attributes_vec.push(
        Trait { display_type: None, trait_type: String::from_str("timestamp"), value: u64_to_string(timestamp) },
    );
    let extension = Metadata {
        image: copy_opt_string(&metadata.image),
        image_data: None,
        external_url: None,
        description: copy_opt_string(&metadata.description),
        name: Some(token_name_string(&collection_name, token_id)),
        attributes: Some(attributes_vec),
        background_color: None,
        animation_url: None,
        youtube_url: None,
    };
    let mint_msg = MintMsg {
        token_id: u64_to_string(token_id),
        owner: user_addr,
        name: token_name_string(&collection_name, token_id),
        description: copy_opt_string(&metadata.description),
        image: Some(token_uri),
        extension,
    };
    execute_msg(nft_contract_addr, ExecutePayload::Cw721(Cw721ExecuteMsg::Mint(mint_msg)))
}

/// `i` is the first registration of `liquidator`.
pub open spec fn is_first_registration(liquidators: Seq<LiquidationHelpersInfo>, liquidator: Seq<char>, i: int) -> bool {
    &&& 0 <= i < liquidators.len()
    &&& liquidators[i].liquidator_contract@ == liquidator
    &&& forall|j: int| 0 <= j < i ==> (#[trigger] liquidators[j]).liquidator_contract@ != liquidator
}

fn first_registration(liquidators: &Vec<LiquidationHelpersInfo>, liquidator: &String) -> (r: Option<usize>)
    ensures
        r is None <==> !is_registered(liquidators@, liquidator@),
        r matches Some(i) ==> is_first_registration(liquidators@, liquidator@, i as int),
{
    let mut i: usize = 0;
    while i < liquidators.len()
        invariant
            i <= liquidators@.len(),
            forall|j: int| 0 <= j < i ==> (#[trigger] liquidators@[j]).liquidator_contract@ != liquidator@,
        decreases liquidators@.len() - i,
    {
        if liquidators[i].liquidator_contract == *liquidator {
            return Some(i);
        }
        i = i + 1;
    }
    None
}

/// The first registration of a liquidator is unique.
proof fn lemma_first_registration_unique(liquidators: Seq<LiquidationHelpersInfo>, liquidator: Seq<char>, i: int, k: int)
    requires
        is_first_registration(liquidators, liquidator, i),
        is_first_registration(liquidators, liquidator, k),
    ensures
        i == k,
{
    if i < k {
        assert(liquidators[i].liquidator_contract@ != liquidator);
    } else if k < i {
        assert(liquidators[k].liquidator_contract@ != liquidator);
    }
}

/// The liquidators' registrations on which `handle_mint_nft` neither overflows the count
/// of minted tokens nor meets a collection without a name.
pub open spec fn mint_fits(liquidators: Seq<LiquidationHelpersInfo>, liquidator: Seq<char>) -> bool {
    forall|i: int| #[trigger] is_first_registration(liquidators, liquidator, i) ==> liquidators[i].total_minted < u64::MAX
        && liquidators[i].metadata.name is Some
}

/// The registrations after `k` mints by the liquidator registered at `i`: each mint counts
/// one more token of that registration (see `handle_mint_nft`).
pub open spec fn minted_times(liquidators: Seq<LiquidationHelpersInfo>, i: int, k: nat) -> Seq<LiquidationHelpersInfo>
    decreases k,
{
    if k == 0 {
        liquidators
    } else {
        let before = minted_times(liquidators, i, (k - 1) as nat);
        before.update(i, LiquidationHelpersInfo { total_minted: (before[i].total_minted + 1) as u64, ..before[i] })
    }
}

/// A liquidator's successive mints get consecutive token ids: after `k` mints its first
/// registration is still the one at `i` and has counted `k` more tokens, so the next mint,
/// which takes the count plus one, gets the id `total_minted + k + 1`; the other
/// registrations are untouched. Holds while the counter stays within 64 bits.
pub proof fn law_consecutive_token_ids(liquidators: Seq<LiquidationHelpersInfo>, sender: Seq<char>, i: int, k: nat)
    requires
        is_first_registration(liquidators, sender, i),
        liquidators[i].total_minted + k <= u64::MAX,
    ensures
        is_first_registration(minted_times(liquidators, i, k), sender, i),
        minted_times(liquidators, i, k)[i].total_minted == liquidators[i].total_minted + k,
        minted_times(liquidators, i, k).len() == liquidators.len(),
        forall|j: int| 0 <= j < liquidators.len() && j != i ==> #[trigger] minted_times(liquidators, i, k)[j]
            == liquidators[j],
    decreases k,
{
    if k > 0 {
        law_consecutive_token_ids(liquidators, sender, i, (k - 1) as nat);
    }
}

/// Mints the next token of the sender's collection to a user that the sender liquidated;
/// only a registered liquidator may. `block_time` is the block's time in seconds.
pub fn handle_mint_nft(
    config: &mut Config,
    sender: &String,
    block_time: u64,
    user_address: String,
    liquidated_amount: Uint256,
) -> (r: Result<Response, ContractError>)
    requires
        mint_fits(old(config).whitewhale_liquidators@, sender@),
    ensures
        !is_registered(old(config).whitewhale_liquidators@, sender@) ==> r == Err::<Response, ContractError>(
            ContractError::LiquidatorNotSupported,
        ) && *final(config) == *old(config),
        forall|i: int| #[trigger] is_first_registration(old(config).whitewhale_liquidators@, sender@, i) ==> {
            let e = old(config).whitewhale_liquidators@[i];
            &&& r matches Ok(resp) && resp.messages@.len() == 1 && resp.messages@[0] == plain(resp.messages@[0].msg)
                && attrs(resp.attributes@) == seq![("action"@, "mint_nft"@), ("liquidator"@, sender@)]
                && is_liquidation_mint(
                resp.messages@[0].msg,
                e.nft_contract_addr,
                block_time,
                (e.total_minted + 1) as u64,
                e.token_uri,
                e.metadata,
                user_address,
                liquidated_amount,
            )
            &&& final(config).owner == old(config).owner
            &&& final(config).cw721_code_id == old(config).cw721_code_id
            &&& final(config).whitewhale_liquidators@ == old(config).whitewhale_liquidators@.update(
                i,
                LiquidationHelpersInfo { total_minted: (e.total_minted + 1) as u64, ..e },
            )
        },
{
    let i = match first_registration(&config.whitewhale_liquidators, sender) {
        Some(i) => i,
        None => return Err(ContractError::LiquidatorNotSupported),
    };
    let ghost before = config.whitewhale_liquidators@;
    assert(is_first_registration(before, sender@, i as int));
    let token_id = config.whitewhale_liquidators[i].total_minted + 1;
    let nft_mint_msg = build_mint_msg(
        block_time,
        config.whitewhale_liquidators[i].nft_contract_addr.clone(),
        token_id,
        config.whitewhale_liquidators[i].token_uri.clone(),
        config.whitewhale_liquidators[i].metadata.duplicate(),
        user_address,
        liquidated_amount,
    );
    config.whitewhale_liquidators[i].total_minted = token_id;
    proof {
        assert forall|k: int| #[trigger] is_first_registration(before, sender@, k) implies k == i by {
            lemma_first_registration_unique(before, sender@, i as int, k);
        }
        assert(config.whitewhale_liquidators@ =~= before.update(
            i as int,
            LiquidationHelpersInfo { total_minted: token_id, ..before[i as int] },
        ));
    }
    let resp = Response::new().add_attribute("action", String::from_str("mint_nft")).add_attribute(
        "liquidator",
        sender.clone(),
    );
    assert(attrs(resp.attributes@) =~= seq![("action"@, "mint_nft"@), ("liquidator"@, sender@)]);
    Ok(resp.add_message(nft_mint_msg))
}

/// A copy of the list of registrations, element by element.
fn copy_liquidators(liquidators: &Vec<LiquidationHelpersInfo>) -> (r: Vec<LiquidationHelpersInfo>)
    ensures
        r@.len() == liquidators@.len(),
        forall|i: int| #![trigger r@[i]]
            0 <= i < liquidators@.len() ==> {
                let (a, b) = (r@[i], liquidators@[i]);
                a.liquidator_contract == b.liquidator_contract && a.nft_contract_addr == b.nft_contract_addr
                    && a.total_minted == b.total_minted && same_metadata(a.metadata, b.metadata) && a.token_uri
                    == b.token_uri
            },
{
    let mut out: Vec<LiquidationHelpersInfo> = Vec::new();
    let mut i: usize = 0;
    while i < liquidators.len()
        invariant
            i <= liquidators@.len(),
            out@.len() == i,
            forall|j: int| #![trigger out@[j]]
                0 <= j < i ==> {
                    let (a, b) = (out@[j], liquidators@[j]);
                    a.liquidator_contract == b.liquidator_contract && a.nft_contract_addr == b.nft_contract_addr
                        && a.total_minted == b.total_minted && same_metadata(a.metadata, b.metadata)
                        && a.token_uri == b.token_uri
                },
        decreases liquidators@.len() - i,
    {
        let e = &liquidators[i];
        out.push(
            LiquidationHelpersInfo {
                liquidator_contract: e.liquidator_contract.clone(),
                nft_contract_addr: e.nft_contract_addr.clone(),
                total_minted: e.total_minted,
                metadata: e.metadata.duplicate(),
                token_uri: e.token_uri.clone(),
            },
        );
        i = i + 1;
    }
    out
}

/// The configuration, as the query answers it.
pub fn query_config(config: &Config) -> (r: ConfigResponse)
    ensures
        r.owner == config.owner,
        r.whitewhale_liquidators@.len() == config.whitewhale_liquidators@.len(),
        forall|i: int| #![trigger r.whitewhale_liquidators@[i]]
            0 <= i < config.whitewhale_liquidators@.len() ==> {
                let (a, b) = (r.whitewhale_liquidators@[i], config.whitewhale_liquidators@[i]);
                a.liquidator_contract == b.liquidator_contract && a.nft_contract_addr == b.nft_contract_addr
                    && a.total_minted == b.total_minted && same_metadata(a.metadata, b.metadata) && a.token_uri
                    == b.token_uri
            },
{
    ConfigResponse { owner: config.owner.clone(), whitewhale_liquidators: copy_liquidators(&config.whitewhale_liquidators) }
}

} // verus!
