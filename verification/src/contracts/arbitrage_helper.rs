//! The DEX arbitrage helper: borrows UST from the vault, buys an asset on one exchange,
//! sells it on another and returns the UST with the profit.
use vstd::prelude::*;
use vstd::string::StringExecFns;

use crate::asset::{AssetInfo, TaxInfo, coin_tax, compute_tax, rate_ok, same_asset, lemma_tax_le_amount, cap_of, luna_denom, identifier_of};
use crate::cosmos::{CosmosMsg, Response, attrs, plain};
use crate::error::ContractError;
use crate::liquidation_helpers::astroport_helper::{
    SwapOperation, is_router_cw20_swap, is_router_native_swap, taxed_coin, trade_cw20_for_native_on_astroport,
    trade_native_for_cw20_on_astroport, trade_native_for_native_on_astroport,
};
use crate::liquidation_helpers::dex_arb_helper::{
    CallbackMsg, ConfigResponse, DexInfo, InstantiateMsg, PoolInfo, StateResponse, UpdateConfigMsg, is_callback,
};
use crate::liquidation_helpers::flashloan_helper::{build_flash_loan_msg, is_flash_loan};
use crate::liquidation_helpers::helper::{
    build_send_native_asset_msg, coin_amount, get_denom_amount_from_coins, lemma_coin_amount_absent,
    lemma_coin_amount_is_first_coin,
};
use crate::cosmos::is_bank_send;
use crate::liquidation_helpers::terraswap_helper::{is_pair_native_swap, trade_cw20_on_terraswap, trade_native_on_terraswap};
use crate::cosmos::{hook_of, is_cw20_send, ExecutePayload};
use crate::white_whale::terraswap::PairCw20HookMsg;
use crate::asset::Coin;
use crate::math::{Uint256, u256, two_pow_256, decimal, u128_to_string};

verus! {

#[derive(Clone, Debug, PartialEq)]
pub struct Config {
    pub owner: String,
    pub ust_vault_address: String,
    pub astroport_router: String,
    pub stable_denom: String,
    pub terraswap_pools: Vec<PoolInfo>,
    pub loop_pools: Vec<PoolInfo>,
}

/// The Loop pools, as stored on their own.
#[derive(Clone, Debug, PartialEq)]
pub struct Loop {
    pub loop_pools: Vec<PoolInfo>,
}

/// The Terraswap pools, as stored on their own.
#[derive(Clone, Debug, PartialEq)]
pub struct Terraswap {
    pub terraswap_pools: Vec<PoolInfo>,
}

/// The Astroport pools, as stored on their own.
#[derive(Clone, Debug, PartialEq)]
pub struct Astroport {
    pub astroport_pools: Vec<PoolInfo>,
}

#[derive(Clone, Copy, Debug, PartialEq, Eq, Structural)]
pub struct State {
    pub total_arbs: u64,
    pub total_ust_profit: Uint256,
}

/// The configuration and state at instantiation: the given addresses, no pools, no arbitrage
/// yet. `addresses_valid` is the chain's verdict on the three addresses.
pub fn instantiate(msg: InstantiateMsg, addresses_valid: bool) -> (r: Result<(Config, State), ContractError>)
    ensures
        !addresses_valid ==> r == Err::<(Config, State), ContractError>(ContractError::InvalidAddress),
        addresses_valid ==> (r matches Ok((config, state)) && config.owner == msg.owner
            && config.ust_vault_address == msg.ust_vault_address && config.astroport_router == msg.astroport_router
            && config.stable_denom == msg.stable_denom && config.terraswap_pools@.len() == 0
            && config.loop_pools@.len() == 0 && state.total_arbs == 0 && state.total_ust_profit@ == 0),
{
    if !addresses_valid {
        return Err(ContractError::InvalidAddress);
    }
    let config = Config {
        owner: msg.owner,
        ust_vault_address: msg.ust_vault_address,
        astroport_router: msg.astroport_router,
        stable_denom: msg.stable_denom,
        terraswap_pools: Vec::new(),
        loop_pools: Vec::new(),
    };
    Ok((config, State { total_arbs: 0, total_ust_profit: Uint256::zero() }))
}

/// Replaces the addresses that `new_config` gives; only the owner may. `addresses_valid` is
/// the chain's verdict on the given addresses.
pub fn handle_update_config(
    config: &mut Config,
    sender: &String,
    new_config: UpdateConfigMsg,
    addresses_valid: bool,
) -> (r: Result<Response, ContractError>)
    ensures
        sender@ != old(config).owner@ ==> r == Err::<Response, ContractError>(ContractError::Unauthorized),
        r is Ok <==> sender@ == old(config).owner@ && (addresses_valid || (new_config.owner is None
            && new_config.ust_vault_address is None && new_config.astroport_router is None)),
        r is Err ==> *final(config) == *old(config),
        r matches Ok(resp) ==> resp.messages@.len() == 0
            && attrs(resp.attributes@) == seq![("action"@, "dex_arb_helper::ExecuteMsg::UpdateConfig"@)]
            && final(config).owner == (match new_config.owner { Some(a) => a, None => old(config).owner })
            && final(config).ust_vault_address == (match new_config.ust_vault_address {
                Some(a) => a,
                None => old(config).ust_vault_address,
            })
            && final(config).astroport_router == (match new_config.astroport_router {
                Some(a) => a,
                None => old(config).astroport_router,
            })
            && final(config).stable_denom == old(config).stable_denom
            && final(config).terraswap_pools == old(config).terraswap_pools
            && final(config).loop_pools == old(config).loop_pools,
{
    if *sender != config.owner {
        return Err(ContractError::Unauthorized);
    }
    if (new_config.owner.is_some() || new_config.ust_vault_address.is_some() || new_config.astroport_router.is_some())
        && !addresses_valid {
        return Err(ContractError::InvalidAddress);
    }
    if let Some(a) = new_config.owner {
        config.owner = a;
    }
    if let Some(a) = new_config.ust_vault_address {
        config.ust_vault_address = a;
    }
    if let Some(a) = new_config.astroport_router {
        config.astroport_router = a;
    }
    let resp = Response::new().add_attribute("action", String::from_str("dex_arb_helper::ExecuteMsg::UpdateConfig"));
    assert(attrs(resp.attributes@) =~= seq![("action"@, "dex_arb_helper::ExecuteMsg::UpdateConfig"@)]);
    Ok(resp)
}

/// Whether some pool of `pools` trades `asset`.
pub open spec fn pools_trade(pools: Seq<PoolInfo>, asset: AssetInfo) -> bool {
    exists|i: int| 0 <= i < pools.len() && same_asset(#[trigger] pools[i].asset_token, asset)
}

fn find_pool(pools: &Vec<PoolInfo>, asset: &AssetInfo) -> (b: bool)
    ensures
        b == pools_trade(pools@, *asset),
{
    let mut i: usize = 0;
    while i < pools.len()
        invariant
            i <= pools@.len(),
            forall|j: int| 0 <= j < i ==> !same_asset(#[trigger] pools@[j].asset_token, *asset),
        decreases pools@.len() - i,
    {
        if pools[i].asset_token.equal(asset) {
            return true;
        }
        i = i + 1;
    }
    false
}

/// Adds a Terraswap or Loop pool for an asset that the exchange does not list yet; only
/// the owner may, and Astroport needs no pool.
pub fn handle_add_pool(config: &mut Config, sender: &String, dex: DexInfo, new_pool: PoolInfo) -> (r: Result<Response, ContractError>)
    ensures
        sender@ != old(config).owner@ ==> r == Err::<Response, ContractError>(ContractError::Unauthorized),
        r is Err ==> *final(config) == *old(config),
        sender@ == old(config).owner@ ==> match dex {
            DexInfo::Astroport => r == Err::<Response, ContractError>(ContractError::PoolDataNotNeededForAstroport),
            DexInfo::Terraswap => if pools_trade(old(config).terraswap_pools@, new_pool.asset_token) {
                r == Err::<Response, ContractError>(ContractError::AlreadySupported)
            } else {
                r is Ok && final(config).terraswap_pools@ == old(config).terraswap_pools@.push(new_pool)
                    && final(config).loop_pools == old(config).loop_pools
                    && final(config).owner == old(config).owner
                    && final(config).ust_vault_address == old(config).ust_vault_address
                    && final(config).astroport_router == old(config).astroport_router
                    && final(config).stable_denom == old(config).stable_denom
            },
            DexInfo::Loop => if pools_trade(old(config).loop_pools@, new_pool.asset_token) {
                r == Err::<Response, ContractError>(ContractError::AlreadySupported)
            } else {
                r is Ok && final(config).loop_pools@ == old(config).loop_pools@.push(new_pool)
                    && final(config).terraswap_pools == old(config).terraswap_pools
                    && final(config).owner == old(config).owner
                    && final(config).ust_vault_address == old(config).ust_vault_address
                    && final(config).astroport_router == old(config).astroport_router
                    && final(config).stable_denom == old(config).stable_denom
            },
        },
        r matches Ok(resp) ==> resp.messages@.len() == 0 && attrs(resp.attributes@) == seq![
            ("action"@, if dex is Terraswap { "Add_Terraswap_Pool"@ } else { "Add_Loop_Pool"@ }),
            ("pool_address"@, new_pool.pair_address@),
        ],
{
    if *sender != config.owner {
        return Err(ContractError::Unauthorized);
    }
    let pool_address = new_pool.pair_address.clone();
    let action = match dex {
        DexInfo::Terraswap => {
            if find_pool(&config.terraswap_pools, &new_pool.asset_token) {
                return Err(ContractError::AlreadySupported);
            }
            config.terraswap_pools.push(new_pool);
            String::from_str("Add_Terraswap_Pool")
        },
        DexInfo::Loop => {
            if find_pool(&config.loop_pools, &new_pool.asset_token) {
                return Err(ContractError::AlreadySupported);
            }
            config.loop_pools.push(new_pool);
            String::from_str("Add_Loop_Pool")
        },
        DexInfo::Astroport => {
            return Err(ContractError::PoolDataNotNeededForAstroport);
        },
    };
    let resp = Response::new().add_attribute("action", action).add_attribute("pool_address", pool_address);
    assert(attrs(resp.attributes@) =~= seq![
        ("action"@, if dex is Terraswap { "Add_Terraswap_Pool"@ } else { "Add_Loop_Pool"@ }),
        ("pool_address"@, new_pool.pair_address@),
    ]);
    Ok(resp)
}

/// Asks the vault for a flash loan of `ust_to_borrow` UST, to be handed to this contract's
/// `InitiateArbCallback`. The loan must fit in the 128 bits of a loan request.
pub fn handle_arbitrage(
    config: &Config,
    contract_address: &String,
    buy_side: DexInfo,
    sell_side: DexInfo,
    ust_to_borrow: Uint256,
    asset: AssetInfo,
) -> (r: Response)
    requires
        ust_to_borrow@ <= u128::MAX,
    ensures
        r.messages@.len() == 1,
        r.messages@[0] == plain(r.messages@[0].msg),
        exists|callback: CosmosMsg| is_flash_loan(
            r.messages@[0].msg,
            config.ust_vault_address,
            config.stable_denom,
            ust_to_borrow@ as u128,
            callback,
        ) && is_callback(callback, *contract_address, CallbackMsg::InitiateArbCallback { buy_side, sell_side, asset }),
        attrs(r.attributes@) == seq![
            ("action"@, "dex_arb_helper::ExecuteMsg::Arbitrage"@),
            ("loan_asked"@, decimal(ust_to_borrow@)),
        ],
{
    let cb = CallbackMsg::InitiateArbCallback { buy_side, sell_side, asset };
    let callback = cb.to_cosmos_msg(contract_address);
    let flash_loan_msg = build_flash_loan_msg(
        config.ust_vault_address.clone(),
        config.stable_denom.clone(),
        ust_to_borrow,
        callback,
    );
    let r = Response::new().add_message(flash_loan_msg).add_attribute(
        "action",
        String::from_str("dex_arb_helper::ExecuteMsg::Arbitrage"),
    ).add_attribute("loan_asked", ust_to_borrow.to_string());
    assert(attrs(r.attributes@) =~= seq![
        ("action"@, "dex_arb_helper::ExecuteMsg::Arbitrage"@),
        ("loan_asked"@, decimal(ust_to_borrow@)),
    ]);
    r
}

/// The pair address of the last pool of `pools` that trades `asset`.
pub open spec fn last_pool_for(pools: Seq<PoolInfo>, asset: AssetInfo) -> Option<String>
    decreases pools.len(),
{
    if pools.len() == 0 {
        None
    } else if same_asset(pools.last().asset_token, asset) {
        Some(pools.last().pair_address)
    } else {
        last_pool_for(pools.drop_last(), asset)
    }
}

/// The pair address of the last pool that trades `asset`.
pub fn find_pair_address(pools: &Vec<PoolInfo>, asset: &AssetInfo) -> (r: Option<String>)
    ensures
        r == last_pool_for(pools@, *asset),
{
    let mut found: Option<String> = None;
    let mut i: usize = 0;
    while i < pools.len()
        invariant
            i <= pools@.len(),
            found == last_pool_for(pools@.subrange(0, i as int), *asset),
        decreases pools@.len() - i,
    {
        let ghost prefix = pools@.subrange(0, i as int);
        assert(pools@.subrange(0, i + 1).drop_last() =~= prefix);
        assert(pools@.subrange(0, i + 1).last() == pools@[i as int]);
        if pools[i].asset_token.equal(asset) {
            found = Some(pools[i].pair_address.clone());
        }
        i = i + 1;
    }
    assert(pools@.subrange(0, pools@.len() as int) =~= pools@);
    found
}

/// Why buying `asset` with `ust` UST on `buy_side` fails, if it does.
pub open spec fn buy_failure(config: Config, tax: TaxInfo, buy_side: DexInfo, asset: AssetInfo, ust: u128, asset_addr_valid: bool) -> Option<ContractError> {
    let tax_missing = coin_tax(config.stable_denom@, ust as int, tax) is None;
    match buy_side {
        DexInfo::Astroport => if asset is Token && !asset_addr_valid {
            Some(ContractError::InvalidAddress)
        } else if tax_missing {
            Some(ContractError::TaxQueryFailed)
        } else {
            None
        },
        DexInfo::Terraswap => match last_pool_for(config.terraswap_pools@, asset) {
            None => Some(ContractError::PairInfoNotFound),
            Some(p) => if p@.len() == 0 {
                Some(ContractError::PairInfoNotFound)
            } else if tax_missing {
                Some(ContractError::TaxQueryFailed)
            } else {
                None
            },
        },
        DexInfo::Loop => match last_pool_for(config.loop_pools@, asset) {
            None => Some(ContractError::PairInfoNotFound),
            Some(p) => if tax_missing {
                Some(ContractError::TaxQueryFailed)
            } else {
                None
            },
        },
    }
}

/// `m` buys `asset` with `ust` UST, less tax, on `buy_side`.
pub open spec fn is_buy_trade(m: CosmosMsg, config: Config, tax: TaxInfo, buy_side: DexInfo, asset: AssetInfo, ust: u128) -> bool {
    let offered = taxed_coin(tax, config.stable_denom, ust);
    match buy_side {
        DexInfo::Astroport => match asset {
            AssetInfo::NativeToken { denom } => is_router_native_swap(
                m,
                config.astroport_router,
                offered,
                SwapOperation::NativeSwap { offer_denom: config.stable_denom, ask_denom: denom },
            ),
            AssetInfo::Token { contract_addr } => is_router_native_swap(
                m,
                config.astroport_router,
                offered,
                SwapOperation::AstroSwap {
                    offer_asset_info: AssetInfo::NativeToken { denom: config.stable_denom },
                    ask_asset_info: AssetInfo::Token { contract_addr },
                },
            ),
        },
        DexInfo::Terraswap => is_pair_native_swap(m, last_pool_for(config.terraswap_pools@, asset)->0, offered),
        DexInfo::Loop => is_pair_native_swap(m, last_pool_for(config.loop_pools@, asset)->0, offered),
    }
}

/// The attribute that reports a purchase: the exchange, for Astroport the kind of asset,
/// and the asset's identifier.
pub open spec fn buy_attr(buy_side: DexInfo, asset: AssetInfo) -> (Seq<char>, Seq<char>) {
    let key = match buy_side {
        DexInfo::Astroport => if asset is NativeToken {
            "astroport_buy_native"@
        } else {
            "astroport_buy_cw20"@
        },
        DexInfo::Terraswap => "terraswap_buy"@,
        DexInfo::Loop => "loop_buy"@,
    };
    (key, identifier_of(asset)@)
}

/// The attribute that reports a sale: the exchange, for Astroport the kind of asset, and
/// the asset's identifier.
pub open spec fn sell_attr(sell_side: DexInfo, asset: AssetInfo) -> (Seq<char>, Seq<char>) {
    let key = match sell_side {
        DexInfo::Astroport => if asset is NativeToken {
            "astroport_sell_native"@
        } else {
            "astroport_sell_cw20"@
        },
        DexInfo::Terraswap => "terraswap_sell"@,
        DexInfo::Loop => "loop_sell"@,
    };
    (key, identifier_of(asset)@)
}

/// What `initiate_arb_callback` answers.
pub open spec fn initiate_arb_post(
    config: Config,
    tax: TaxInfo,
    contract_address: String,
    funds: Seq<Coin>,
    buy_side: DexInfo,
    sell_side: DexInfo,
    asset: AssetInfo,
    asset_addr_valid: bool,
    r: Result<Response, ContractError>,
) -> bool {
    let ust = coin_amount(funds, config.stable_denom@);
    &&& r is Err <==> buy_failure(config, tax, buy_side, asset, ust, asset_addr_valid) is Some
    &&& r matches Err(e) ==> buy_failure(config, tax, buy_side, asset, ust, asset_addr_valid) == Some(e)
    &&& r matches Ok(resp) ==> resp.messages@.len() == 2
        && resp.messages@[0] == plain(resp.messages@[0].msg)
        && resp.messages@[1] == plain(resp.messages@[1].msg)
        && is_buy_trade(resp.messages@[0].msg, config, tax, buy_side, asset, ust)
        && attrs(resp.attributes@) == seq![buy_attr(buy_side, asset)]
        && is_callback(
            resp.messages@[1].msg,
            contract_address,
            CallbackMsg::AfterBuyCallback { sell_side, asset, amount: u256(ust) },
        )
}

/// Runs with the loaned UST: buys `asset` with all the UST sent, on `buy_side`, then hands
/// the amount borrowed to `AfterBuyCallback`. `asset_addr_valid` is the chain's verdict on
/// a token asset's address.
pub fn initiate_arb_callback(
    config: &Config,
    tax: &TaxInfo,
    contract_address: &String,
    funds: &Vec<Coin>,
    buy_side: DexInfo,
    sell_side: DexInfo,
    asset: AssetInfo,
    asset_addr_valid: bool,
) -> (r: Result<Response, ContractError>)
    requires
        rate_ok(tax.rate),
    ensures
        initiate_arb_post(*config, *tax, *contract_address, funds@, buy_side, sell_side, asset, asset_addr_valid, r),
{
    let ust_amount = get_denom_amount_from_coins(funds, &config.stable_denom);
    let ust: u128 = ust_amount.to_u128();
    let trade_msg = match buy_side {
        DexInfo::Astroport => match &asset {
            AssetInfo::NativeToken { denom } => trade_native_for_native_on_astroport(
                tax,
                config.astroport_router.clone(),
                config.stable_denom.clone(),
                ust,
                denom.clone(),
            )?,
            AssetInfo::Token { contract_addr } => {
                if !asset_addr_valid {
                    return Err(ContractError::InvalidAddress);
                }
                trade_native_for_cw20_on_astroport(
                    tax,
                    config.astroport_router.clone(),
                    config.stable_denom.clone(),
                    ust,
                    contract_addr.clone(),
                )?
            },
        },
        DexInfo::Terraswap => {
            let pair_address = match find_pair_address(&config.terraswap_pools, &asset) {
                Some(p) => p,
                None => return Err(ContractError::PairInfoNotFound),
            };
            if pair_address.as_str().is_empty() {
                return Err(ContractError::PairInfoNotFound);
            }
            trade_native_on_terraswap(tax, pair_address, config.stable_denom.clone(), ust)?
        },
        DexInfo::Loop => {
            let pair_address = match find_pair_address(&config.loop_pools, &asset) {
                Some(p) => p,
                None => return Err(ContractError::PairInfoNotFound),
            };
            trade_native_on_terraswap(tax, pair_address, config.stable_denom.clone(), ust)?
        },
    };
    let key = match buy_side {
        DexInfo::Astroport => if asset.is_native_token() {
            "astroport_buy_native"
        } else {
            "astroport_buy_cw20"
        },
        DexInfo::Terraswap => "terraswap_buy",
        DexInfo::Loop => "loop_buy",
    };
    let identifier = asset.to_string();
    let callback = CallbackMsg::AfterBuyCallback { sell_side, asset, amount: ust_amount };
    let after_buy_callback_msg = callback.to_cosmos_msg(contract_address);
    let resp = Response::new().add_message(trade_msg).add_attribute(key, identifier).add_message(
        after_buy_callback_msg,
    );
    assert(attrs(resp.attributes@) =~= seq![buy_attr(buy_side, asset)]);
    Ok(resp)
}


/// Why selling `balance` of `asset` on `sell_side` fails, if it does.
pub open spec fn sell_failure(config: Config, tax: TaxInfo, sell_side: DexInfo, asset: AssetInfo, balance: u128, asset_addr_valid: bool) -> Option<ContractError> {
    let native_tax_missing = asset matches AssetInfo::NativeToken { denom } && coin_tax(denom@, balance as int, tax) is None;
    if asset is Token && !asset_addr_valid {
        Some(ContractError::InvalidAddress)
    } else {
        match sell_side {
            DexInfo::Astroport => if native_tax_missing { Some(ContractError::TaxQueryFailed) } else { None },
            DexInfo::Terraswap => if last_pool_for(config.terraswap_pools@, asset) is None {
                Some(ContractError::PairInfoNotFound)
            } else if native_tax_missing {
                Some(ContractError::TaxQueryFailed)
            } else {
                None
            },
            DexInfo::Loop => if last_pool_for(config.loop_pools@, asset) is None {
                Some(ContractError::PairInfoNotFound)
            } else if native_tax_missing {
                Some(ContractError::TaxQueryFailed)
            } else {
                None
            },
        }
    }
}

/// `m` sells `balance` of `asset` on the pair `pair` of Terraswap or Loop.
pub open spec fn is_pair_sale(m: CosmosMsg, tax: TaxInfo, pair: String, asset: AssetInfo, balance: u128) -> bool {
    match asset {
        AssetInfo::NativeToken { denom } => is_pair_native_swap(m, pair, taxed_coin(tax, denom, balance)),
        AssetInfo::Token { contract_addr } => is_cw20_send(m, contract_addr, pair, balance) && hook_of(m)
            == ExecutePayload::TerraswapCw20Hook(PairCw20HookMsg::Swap { belief_price: None, max_spread: None, to: None }),
    }
}

/// `m` sells `balance` of `asset` for UST on `sell_side`.
pub open spec fn is_sell_trade(m: CosmosMsg, config: Config, tax: TaxInfo, sell_side: DexInfo, asset: AssetInfo, balance: u128) -> bool {
    match sell_side {
        DexInfo::Astroport => match asset {
            AssetInfo::NativeToken { denom } => is_router_native_swap(
                m,
                config.astroport_router,
                taxed_coin(tax, denom, balance),
                SwapOperation::NativeSwap { offer_denom: denom, ask_denom: config.stable_denom },
            ),
            AssetInfo::Token { contract_addr } => is_router_cw20_swap(
                m,
                config.astroport_router,
                contract_addr,
                balance,
                SwapOperation::AstroSwap {
                    offer_asset_info: AssetInfo::Token { contract_addr },
                    ask_asset_info: AssetInfo::NativeToken { denom: config.stable_denom },
                },
            ),
        },
        DexInfo::Terraswap => is_pair_sale(m, tax, last_pool_for(config.terraswap_pools@, asset)->0, asset, balance),
        DexInfo::Loop => is_pair_sale(m, tax, last_pool_for(config.loop_pools@, asset)->0, asset, balance),
    }
}

/// What `after_buy_callback` answers.
pub open spec fn after_buy_post(
    config: Config,
    tax: TaxInfo,
    contract_address: String,
    sell_side: DexInfo,
    asset: AssetInfo,
    arb_amount: Uint256,
    asset_addr_valid: bool,
    asset_balance: u128,
    r: Result<Response, ContractError>,
) -> bool {
    &&& r is Err <==> sell_failure(config, tax, sell_side, asset, asset_balance, asset_addr_valid) is Some
    &&& r matches Err(e) ==> sell_failure(config, tax, sell_side, asset, asset_balance, asset_addr_valid) == Some(e)
    &&& r matches Ok(resp) ==> resp.messages@.len() == 2
        && resp.messages@[0] == plain(resp.messages@[0].msg)
        && resp.messages@[1] == plain(resp.messages@[1].msg)
        && is_sell_trade(resp.messages@[0].msg, config, tax, sell_side, asset, asset_balance)
        && attrs(resp.attributes@) == seq![
            sell_attr(sell_side, asset),
            ("sell_amount"@, decimal(asset_balance as nat)),
        ]
        && is_callback(resp.messages@[1].msg, contract_address, CallbackMsg::AfterSellCallback { arb_amount })
}

fn sell_on_pair(
    tax: &TaxInfo,
    pair_address: String,
    asset: &AssetInfo,
    balance: u128,
) -> (r: Result<CosmosMsg, ContractError>)
    requires
        rate_ok(tax.rate),
    ensures
        r is Err <==> (asset matches AssetInfo::NativeToken { denom } && coin_tax(denom@, balance as int, *tax) is None),
        r is Err ==> r == Err::<CosmosMsg, ContractError>(ContractError::TaxQueryFailed),
        r matches Ok(m) ==> is_pair_sale(m, *tax, pair_address, *asset, balance),
{
    match asset {
        AssetInfo::NativeToken { denom } => trade_native_on_terraswap(tax, pair_address, denom.clone(), balance),
        AssetInfo::Token { contract_addr } => Ok(trade_cw20_on_terraswap(pair_address, contract_addr.clone(), balance)),
    }
}

/// Runs once the asset is bought: sells the whole balance of it for UST on `sell_side`,
/// then hands the amount borrowed to `AfterSellCallback`. `asset_balance` is the balance
/// of the asset that the contract holds, as the chain answers; `asset_addr_valid` is the
/// chain's verdict on a token asset's address.
pub fn after_buy_callback(
    config: &Config,
    tax: &TaxInfo,
    contract_address: &String,
    sell_side: DexInfo,
    asset: AssetInfo,
    arb_amount: Uint256,
    asset_addr_valid: bool,
    asset_balance: u128,
) -> (r: Result<Response, ContractError>)
    requires
        rate_ok(tax.rate),
    ensures
        after_buy_post(*config, *tax, *contract_address, sell_side, asset, arb_amount, asset_addr_valid, asset_balance, r),
{
    if asset.is_native_token() == false && !asset_addr_valid {
        return Err(ContractError::InvalidAddress);
    }
    let trade_msg = match sell_side {
        DexInfo::Astroport => match &asset {
            AssetInfo::NativeToken { denom } => trade_native_for_native_on_astroport(
                tax,
                config.astroport_router.clone(),
                denom.clone(),
                asset_balance,
                config.stable_denom.clone(),
            )?,
            AssetInfo::Token { contract_addr } => trade_cw20_for_native_on_astroport(
                config.astroport_router.clone(),
                contract_addr.clone(),
                asset_balance,
                config.stable_denom.clone(),
            ),
        },
        DexInfo::Terraswap => {
            let pair_address = match find_pair_address(&config.terraswap_pools, &asset) {
                Some(p) => p,
                None => return Err(ContractError::PairInfoNotFound),
            };
            sell_on_pair(tax, pair_address, &asset, asset_balance)?
        },
        DexInfo::Loop => {
            let pair_address = match find_pair_address(&config.loop_pools, &asset) {
                Some(p) => p,
                None => return Err(ContractError::PairInfoNotFound),
            };
            sell_on_pair(tax, pair_address, &asset, asset_balance)?
        },
    };
    let key = match sell_side {
        DexInfo::Astroport => if asset.is_native_token() {
            "astroport_sell_native"
        } else {
            "astroport_sell_cw20"
        },
        DexInfo::Terraswap => "terraswap_sell",
        DexInfo::Loop => "loop_sell",
    };
    let after_sell_callback_msg = CallbackMsg::AfterSellCallback { arb_amount }.to_cosmos_msg(contract_address);
    let resp = Response::new().add_message(trade_msg).add_attribute(key, asset.to_string()).add_attribute(
        "sell_amount",
        u128_to_string(asset_balance),
    ).add_message(after_sell_callback_msg);
    assert(attrs(resp.attributes@) =~= seq![
        sell_attr(sell_side, asset),
        ("sell_amount"@, decimal(asset_balance as nat)),
    ]);
    Ok(resp)
}

/// The UST that the contract holds once the tax on sending it back is taken out.
pub open spec fn net_ust(config: Config, tax: TaxInfo, ust_balance: u128) -> Option<int> {
    match coin_tax(config.stable_denom@, ust_balance as int, tax) {
        Some(t) => Some(ust_balance - t),
        None => None,
    }
}

/// The states on which a profit of the arbitrage can be recorded without overflow.
pub open spec fn profit_fits(state: State, config: Config, tax: TaxInfo, ust_balance: u128, arb_amount: Uint256) -> bool {
    match net_ust(config, tax, ust_balance) {
        Some(n) => n > arb_amount@ ==> state.total_arbs < u64::MAX && state.total_ust_profit@ + (n - arb_amount@)
            < two_pow_256(),
        None => true,
    }
}

/// What `after_sell_callback` answers and leaves behind.
pub open spec fn after_sell_post(
    config: Config,
    tax: TaxInfo,
    ust_balance: u128,
    arb_amount: Uint256,
    old_state: State,
    new_state: State,
    r: Result<Response, ContractError>,
) -> bool {
    match net_ust(config, tax, ust_balance) {
        None => r == Err::<Response, ContractError>(ContractError::TaxQueryFailed) && new_state == old_state,
        Some(n) => if n <= arb_amount@ {
            r == Err::<Response, ContractError>(ContractError::InsufficientReturn { received: u256(n as u128), minimum: arb_amount })
                && new_state == old_state
        } else {
            &&& new_state.total_arbs == old_state.total_arbs + 1
            &&& new_state.total_ust_profit@ == old_state.total_ust_profit@ + (n - arb_amount@)
            &&& r matches Ok(resp) && resp.messages@.len() == 1 && resp.messages@[0] == plain(resp.messages@[0].msg)
                && is_bank_send(resp.messages@[0].msg, config.ust_vault_address, seq![taxed_coin(tax, config.stable_denom, ust_balance)])
                && attrs(resp.attributes@) == seq![
                    ("return_ust_to_vault"@, decimal(ust_balance as nat)),
                    ("profit"@, decimal((n - arb_amount@) as nat)),
                ]
        },
    }
}

/// Runs once the asset is sold: the UST that came back, less the tax on returning it, must
/// exceed the amount borrowed; the profit is recorded and all the UST goes back to the
/// vault. `ust_balance` is the contract's UST balance, as the chain answers.
pub fn after_sell_callback(
    config: &Config,
    state: &mut State,
    tax: &TaxInfo,
    ust_balance: u128,
    arb_amount: Uint256,
) -> (r: Result<Response, ContractError>)
    requires
        rate_ok(tax.rate),
        profit_fits(*old(state), *config, *tax, ust_balance, arb_amount),
    ensures
        after_sell_post(*config, *tax, ust_balance, arb_amount, *old(state), *final(state), r),
{
    let t = match compute_tax(tax, &config.stable_denom, ust_balance) {
        Some(t) => t,
        None => return Err(ContractError::TaxQueryFailed),
    };
    proof {
        if config.stable_denom@ != luna_denom() {
            lemma_tax_le_amount(ust_balance as int, tax.rate, cap_of(tax.caps@, config.stable_denom@)->0 as int);
        }
    }
    let computed_ust_balance = Uint256::from_u128(ust_balance - t);
    if !arb_amount.lt(&computed_ust_balance) {
        return Err(ContractError::InsufficientReturn { received: computed_ust_balance, minimum: arb_amount });
    }
    let profit = computed_ust_balance.sub(&arb_amount);
    let send_native_asset_msg = build_send_native_asset_msg(
        tax,
        config.ust_vault_address.clone(),
        &config.stable_denom,
        Uint256::from_u128(ust_balance),
    )?;
    state.total_arbs = state.total_arbs + 1;
    state.total_ust_profit = state.total_ust_profit.add(&profit);
    let resp = Response::new().add_message(send_native_asset_msg).add_attribute(
        "return_ust_to_vault",
        u128_to_string(ust_balance),
    ).add_attribute("profit", profit.to_string());
    assert(attrs(resp.attributes@) =~= seq![
        ("return_ust_to_vault"@, decimal(ust_balance as nat)),
        ("profit"@, decimal(profit@)),
    ]);
    Ok(resp)
}

/// The arbitrage must give back all the UST lent: once the purchase succeeds, the amount
/// handed to `AfterBuyCallback`, the least that the sale must bring back, is the whole
/// amount of the first coin of the stable denomination that came with the loan, not that
/// amount less the tax on the purchase; with no such coin it is zero.
pub proof fn law_callback_asks_back_the_whole_loan(
    config: Config,
    tax: TaxInfo,
    contract_address: String,
    funds: Seq<Coin>,
    buy_side: DexInfo,
    sell_side: DexInfo,
    asset: AssetInfo,
    asset_addr_valid: bool,
    r: Result<Response, ContractError>,
)
    requires
        initiate_arb_post(config, tax, contract_address, funds, buy_side, sell_side, asset, asset_addr_valid, r),
        r is Ok,
    ensures
        forall|i: int|
            0 <= i < funds.len() && #[trigger] funds[i].denom@ == config.stable_denom@ && (forall|j: int|
                0 <= j < i ==> (#[trigger] funds[j]).denom@ != config.stable_denom@) ==> (r matches Ok(resp)
                && is_callback(
                resp.messages@[1].msg,
                contract_address,
                CallbackMsg::AfterBuyCallback { sell_side, asset, amount: u256(funds[i].amount) },
            )),
        (forall|j: int| 0 <= j < funds.len() ==> (#[trigger] funds[j]).denom@ != config.stable_denom@) ==> (r matches Ok(
            resp,
        ) && is_callback(
            resp.messages@[1].msg,
            contract_address,
            CallbackMsg::AfterBuyCallback { sell_side, asset, amount: u256(0) },
        )),
{
    assert forall|i: int|
        0 <= i < funds.len() && #[trigger] funds[i].denom@ == config.stable_denom@ && (forall|j: int|
            0 <= j < i ==> (#[trigger] funds[j]).denom@ != config.stable_denom@) implies (r matches Ok(resp)
            && is_callback(
            resp.messages@[1].msg,
            contract_address,
            CallbackMsg::AfterBuyCallback { sell_side, asset, amount: u256(funds[i].amount) },
        )) by {
        lemma_coin_amount_is_first_coin(funds, config.stable_denom@, i);
    }
    if forall|j: int| 0 <= j < funds.len() ==> (#[trigger] funds[j]).denom@ != config.stable_denom@ {
        lemma_coin_amount_absent(funds, config.stable_denom@);
    }
}

/// A finished arbitrage never lowers the books: the count of arbitrages and the recorded
/// profit only grow, and they grow, by one and by a positive profit, exactly when the
/// arbitrage succeeds.
pub proof fn law_profit_only_grows(
    config: Config,
    tax: TaxInfo,
    ust_balance: u128,
    arb_amount: Uint256,
    old_state: State,
    new_state: State,
    r: Result<Response, ContractError>,
)
    requires
        after_sell_post(config, tax, ust_balance, arb_amount, old_state, new_state, r),
    ensures
        new_state.total_arbs >= old_state.total_arbs,
        new_state.total_ust_profit@ >= old_state.total_ust_profit@,
        r is Ok ==> new_state.total_arbs == old_state.total_arbs + 1 && new_state.total_ust_profit@ > old_state.total_ust_profit@,
        r is Err ==> new_state == old_state,
{
}

/// Each exchange lists an asset at most once.
pub open spec fn pools_unique(pools: Seq<PoolInfo>) -> bool {
    forall|i: int, j: int| 0 <= i < j < pools.len() ==> !same_asset(#[trigger] pools[i].asset_token, #[trigger] pools[j].asset_token)
}

/// Adding a pool keeps each exchange's assets distinct: `handle_add_pool` adds only a pool
/// whose asset the exchange does not trade yet.
pub proof fn law_add_pool_keeps_pools_unique(pools: Seq<PoolInfo>, new_pool: PoolInfo)
    requires
        pools_unique(pools),
        !pools_trade(pools, new_pool.asset_token),
    ensures
        pools_unique(pools.push(new_pool)),
{
    assert forall|i: int, j: int| 0 <= i < j < pools.push(new_pool).len() implies !same_asset(
        #[trigger] pools.push(new_pool)[i].asset_token,
        #[trigger] pools.push(new_pool)[j].asset_token,
    ) by {
        if j == pools.len() {
            assert(pools.push(new_pool)[i] == pools[i]);
            if same_asset(pools[i].asset_token, new_pool.asset_token) {
                assert(pools_trade(pools, new_pool.asset_token));
            }
        } else {
            assert(pools.push(new_pool)[i] == pools[i]);
            assert(pools.push(new_pool)[j] == pools[j]);
        }
    }
}

/// The inputs of the callbacks that come from the chain: the coins sent with the call, the
/// balances the contract holds, and the chain's verdict on the asset's address.
#[derive(Clone, Debug, PartialEq)]
pub struct CallbackContext {
    pub funds: Vec<Coin>,
    pub asset_addr_valid: bool,
    pub asset_balance: u128,
    pub ust_balance: u128,
}

/// Runs a callback; only the contract itself may call them.
pub fn handle_callback(
    config: &Config,
    state: &mut State,
    tax: &TaxInfo,
    sender: &String,
    contract_address: &String,
    msg: CallbackMsg,
    ctx: &CallbackContext,
) -> (r: Result<Response, ContractError>)
    requires
        rate_ok(tax.rate),
        msg matches CallbackMsg::AfterSellCallback { arb_amount } ==> profit_fits(
            *old(state),
            *config,
            *tax,
            ctx.ust_balance,
            arb_amount,
        ),
    ensures
        sender@ != contract_address@ ==> r == Err::<Response, ContractError>(ContractError::CallbackFromOutside)
            && *final(state) == *old(state),
        sender@ == contract_address@ ==> match msg {
            CallbackMsg::InitiateArbCallback { buy_side, sell_side, asset } => *final(state) == *old(state)
                && initiate_arb_post(*config, *tax, *contract_address, ctx.funds@, buy_side, sell_side, asset, ctx.asset_addr_valid, r),
            CallbackMsg::AfterBuyCallback { sell_side, asset, amount } => *final(state) == *old(state)
                && after_buy_post(*config, *tax, *contract_address, sell_side, asset, amount, ctx.asset_addr_valid, ctx.asset_balance, r),
            CallbackMsg::AfterSellCallback { arb_amount } => after_sell_post(
                *config,
                *tax,
                ctx.ust_balance,
                arb_amount,
                *old(state),
                *final(state),
                r,
            ),
        },
{
    if *sender != *contract_address {
        return Err(ContractError::CallbackFromOutside);
    }
    match msg {
        CallbackMsg::InitiateArbCallback { buy_side, sell_side, asset } => initiate_arb_callback(
            config,
            tax,
            contract_address,
            &ctx.funds,
            buy_side,
            sell_side,
            asset,
            ctx.asset_addr_valid,
        ),
        CallbackMsg::AfterBuyCallback { sell_side, asset, amount } => after_buy_callback(
            config,
            tax,
            contract_address,
            sell_side,
            asset,
            amount,
            ctx.asset_addr_valid,
            ctx.asset_balance,
        ),
        CallbackMsg::AfterSellCallback { arb_amount } => after_sell_callback(config, state, tax, ctx.ust_balance, arb_amount),
    }
}

/// The configuration, as the query answers it.
pub fn query_config(config: &Config) -> (r: ConfigResponse)
    ensures
        r == (ConfigResponse {
            owner: config.owner,
            ust_vault_address: config.ust_vault_address,
            astroport_router: config.astroport_router,
            stable_denom: config.stable_denom,
            terraswap_pools: r.terraswap_pools,
            loop_pools: r.loop_pools,
        }),
        r.terraswap_pools@ == config.terraswap_pools@,
        r.loop_pools@ == config.loop_pools@,
{
    ConfigResponse {
        owner: config.owner.clone(),
        ust_vault_address: config.ust_vault_address.clone(),
        astroport_router: config.astroport_router.clone(),
        stable_denom: config.stable_denom.clone(),
        terraswap_pools: copy_pools(&config.terraswap_pools),
        loop_pools: copy_pools(&config.loop_pools),
    }
}

/// A copy of a list of pools.
pub fn copy_pools(pools: &Vec<PoolInfo>) -> (r: Vec<PoolInfo>)
    ensures
        r@ == pools@,
{
    let mut out: Vec<PoolInfo> = Vec::new();
    let mut i: usize = 0;
    while i < pools.len()
        invariant
            i <= pools@.len(),
            out@ == pools@.subrange(0, i as int),
        decreases pools@.len() - i,
    {
        out.push(pools[i].duplicate());
        i = i + 1;
        assert(out@ =~= pools@.subrange(0, i as int));
    }
    assert(pools@.subrange(0, pools@.len() as int) =~= pools@);
    out
}

/// The state, as the query answers it.
pub fn query_state(state: &State) -> (r: StateResponse)
    ensures
        r == (StateResponse { total_arbs: state.total_arbs, total_ust_profit: state.total_ust_profit }),
{
    StateResponse { total_arbs: state.total_arbs, total_ust_profit: state.total_ust_profit }
}

} // verus!

