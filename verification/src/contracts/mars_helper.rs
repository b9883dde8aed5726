//! The Mars Red Bank liquidation helper: borrows UST from the vault, buys the debt asset,
//! repays an under-collateralized loan, sells what it received and returns the UST with the
//! profit.
use vstd::prelude::*;
use vstd::string::StringExecFns;

use crate::asset::{AssetInfo, Coin, TaxInfo, coin_tax, compute_tax, deduct_tax, rate_ok, lemma_tax_le_amount, cap_of, luna_denom};
use crate::cosmos::{CosmosMsg, ExecutePayload, Response, attrs, cw20_send_msg, execute_msg, execute_msg_with_coin, hook_of, is_bank_send, is_cw20_send, is_execute, is_execute_no_funds, payload_of, plain};
use crate::error::ContractError;
use crate::liquidation_helpers::astroport_helper::{
    SwapOperation, is_router_cw20_swap, is_router_native_swap, taxed_coin, trade_cw20_for_native_on_astroport,
    trade_native_for_cw20_on_astroport, trade_native_for_native_on_astroport,
};
use crate::liquidation_helpers::flashloan_helper::{build_flash_loan_msg, is_flash_loan};
use crate::liquidation_helpers::helper::{
    build_send_native_asset_msg, coin_amount, get_denom_amount_from_coins, lemma_coin_amount_absent,
    lemma_coin_amount_is_first_coin,
};
use crate::liquidation_helpers::mars_helper::{
    CallbackMsg, ConfigResponse, InstantiateMsg, MarsAsset, MarsLiquidationMsg, RedBankAssetsInfo,
    RedBankMarketQueryResponse, StateResponse, UpdateConfigMsg, is_callback, same_mars_asset,
};
use crate::liquidation_helpers::nft_minter::ExecuteMsg as MinterExecuteMsg;
use crate::math::{Uint256, two_pow_256, u256, decimal, u128_to_string};

verus! {

#[derive(Clone, Debug, PartialEq)]
pub struct Config {
    pub owner: String,
    pub ust_vault_address: String,
    pub red_bank_addr: String,
    pub astroport_router: String,
    pub stable_denom: String,
    pub assets_supported: Vec<RedBankAssetsInfo>,
}

#[derive(Clone, Copy, Debug, PartialEq, Eq, Structural)]
pub struct State {
    pub total_liquidations: u64,
    pub total_ust_profit: Uint256,
}

/// The configuration and state at instantiation. `addresses_valid` is the chain's verdict
/// on the four addresses.
pub fn instantiate(msg: InstantiateMsg, addresses_valid: bool) -> (r: Result<(Config, State), ContractError>)
    ensures
        !addresses_valid ==> r == Err::<(Config, State), ContractError>(ContractError::InvalidAddress),
        addresses_valid ==> (r matches Ok((config, state)) && config.owner == msg.owner
            && config.ust_vault_address == msg.ust_arb_strategy && config.red_bank_addr == msg.red_bank_addr
            && config.astroport_router == msg.astroport_router && config.stable_denom == msg.stable_denom
            && config.assets_supported@.len() == 0 && state.total_liquidations == 0 && state.total_ust_profit@ == 0),
{
    if !addresses_valid {
        return Err(ContractError::InvalidAddress);
    }
    let config = Config {
        owner: msg.owner,
        ust_vault_address: msg.ust_arb_strategy,
        red_bank_addr: msg.red_bank_addr,
        astroport_router: msg.astroport_router,
        stable_denom: msg.stable_denom,
        assets_supported: Vec::new(),
    };
    Ok((config, State { total_liquidations: 0, total_ust_profit: Uint256::zero() }))
}

/// Replaces the addresses that `new_config` gives; only the owner may. `addresses_valid` is
/// the chain's verdict on the given addresses.
pub fn handle_update_config(
    config: &mut Config,
    sender: &String,
    new_config: UpdateConfigMsg,
    addresses_valid: bool,
) -> (r: Result<Response, ContractError>)
    ensures
        sender@ != old(config).owner@ ==> r == Err::<Response, ContractError>(ContractError::Unauthorized),
        r is Ok <==> sender@ == old(config).owner@ && (addresses_valid || (new_config.owner is None
            && new_config.ust_arb_strategy is None && new_config.red_bank_addr is None
            && new_config.astroport_router is None)),
        r is Err ==> *final(config) == *old(config),
        r matches Ok(resp) ==> resp.messages@.len() == 0
            && attrs(resp.attributes@) == seq![("action"@, "redbank_helper::ExecuteMsg::UpdateConfig"@)]
            && final(config).owner == (match new_config.owner { Some(a) => a, None => old(config).owner })
            && final(config).ust_vault_address == (match new_config.ust_arb_strategy {
                Some(a) => a,
                None => old(config).ust_vault_address,
            })
            && final(config).red_bank_addr == (match new_config.red_bank_addr {
                Some(a) => a,
                None => old(config).red_bank_addr,
            })
            && final(config).astroport_router == (match new_config.astroport_router {
                Some(a) => a,
                None => old(config).astroport_router,
            })
            && final(config).stable_denom == old(config).stable_denom
            && final(config).assets_supported == old(config).assets_supported,
{
    if *sender != config.owner {
        return Err(ContractError::Unauthorized);
    }
    if (new_config.owner.is_some() || new_config.ust_arb_strategy.is_some() || new_config.red_bank_addr.is_some()
        || new_config.astroport_router.is_some()) && !addresses_valid {
        return Err(ContractError::InvalidAddress);
    }
    if let Some(a) = new_config.owner {
        config.owner = a;
    }
    if let Some(a) = new_config.ust_arb_strategy {
        config.ust_vault_address = a;
    }
    if let Some(a) = new_config.red_bank_addr {
        config.red_bank_addr = a;
    }
    if let Some(a) = new_config.astroport_router {
        config.astroport_router = a;
    }
    let resp = Response::new().add_attribute("action", String::from_str("redbank_helper::ExecuteMsg::UpdateConfig"));
    assert(attrs(resp.attributes@) =~= seq![("action"@, "redbank_helper::ExecuteMsg::UpdateConfig"@)]);
    Ok(resp)
}

/// Whether the helper already liquidates `asset`.
pub open spec fn asset_supported(assets: Seq<RedBankAssetsInfo>, asset: MarsAsset) -> bool {
    exists|i: int| 0 <= i < assets.len() && same_mars_asset(#[trigger] assets[i].asset_info, asset)
}

fn find_asset(assets: &Vec<RedBankAssetsInfo>, asset: &MarsAsset) -> (b: bool)
    ensures
        b == asset_supported(assets@, *asset),
{
    let mut i: usize = 0;
    while i < assets.len()
        invariant
            i <= assets@.len(),
            forall|j: int| 0 <= j < i ==> !same_mars_asset(#[trigger] assets@[j].asset_info, *asset),
        decreases assets@.len() - i,
    {
        if assets[i].asset_info.equal(asset) {
            return true;
        }
        i = i + 1;
    }
    false
}

/// Adds a Red Bank asset to liquidate, with the parameters of its market; only the owner
/// may, the asset must be new and its market active. `market` is the Red Bank's answer to
/// the market query, `None` when the query failed.
pub fn handle_add_asset(
    config: &mut Config,
    sender: &String,
    new_asset: MarsAsset,
    market: Option<RedBankMarketQueryResponse>,
) -> (r: Result<Response, ContractError>)
    ensures
        r is Err ==> *final(config) == *old(config),
        sender@ != old(config).owner@ ==> r == Err::<Response, ContractError>(ContractError::Unauthorized),
        sender@ == old(config).owner@ ==> if asset_supported(old(config).assets_supported@, new_asset) {
            r == Err::<Response, ContractError>(ContractError::AlreadySupported)
        } else {
            match market {
                None => r == Err::<Response, ContractError>(ContractError::QueryFailed),
                Some(m) => if !m.active {
                    r == Err::<Response, ContractError>(ContractError::MarketNotActive)
                } else {
                    r is Ok && final(config).assets_supported@ == old(config).assets_supported@.push(
                        RedBankAssetsInfo {
                            asset_info: new_asset,
                            ma_token_address: m.ma_token_address,
                            max_loan_to_value: m.max_loan_to_value,
                            liquidation_threshold: m.liquidation_threshold,
                            liquidation_bonus: m.liquidation_bonus,
                        },
                    ) && final(config).owner == old(config).owner
                        && final(config).ust_vault_address == old(config).ust_vault_address
                        && final(config).red_bank_addr == old(config).red_bank_addr
                        && final(config).astroport_router == old(config).astroport_router
                        && final(config).stable_denom == old(config).stable_denom
                },
            }
        },
        r matches Ok(resp) ==> resp.messages@.len() == 0 && attrs(resp.attributes@) == seq![
            ("action"@, "redbank_helper::ExecuteMsg::AddAsset"@),
        ],
{
    if *sender != config.owner {
        return Err(ContractError::Unauthorized);
    }
    if find_asset(&config.assets_supported, &new_asset) {
        return Err(ContractError::AlreadySupported);
    }
    let market_res = match market {
        Some(m) => m,
        None => return Err(ContractError::QueryFailed),
    };
    if !market_res.active {
        return Err(ContractError::MarketNotActive);
    }
    config.assets_supported.push(
        RedBankAssetsInfo {
            asset_info: new_asset,
            ma_token_address: market_res.ma_token_address,
            max_loan_to_value: market_res.max_loan_to_value,
            liquidation_threshold: market_res.liquidation_threshold,
            liquidation_bonus: market_res.liquidation_bonus,
        },
    );
    let resp = Response::new().add_attribute("action", String::from_str("redbank_helper::ExecuteMsg::AddAsset"));
    assert(attrs(resp.attributes@) =~= seq![("action"@, "redbank_helper::ExecuteMsg::AddAsset"@)]);
    Ok(resp)
}

/// Asks the vault for a flash loan of `ust_to_borrow` UST, to be handed to this contract's
/// `InitiateLiquidationCallback`. The loan must fit in the 128 bits of a loan request.
pub fn handle_liquidate_red_bank_user(
    config: &Config,
    contract_address: &String,
    user_address: String,
    ust_to_borrow: Uint256,
    debt_asset: MarsAsset,
    collateral_asset: MarsAsset,
    max_loss_amount: Uint256,
) -> (r: Response)
    requires
        ust_to_borrow@ <= u128::MAX,
    ensures
        r.messages@.len() == 1,
        r.messages@[0] == plain(r.messages@[0].msg),
        exists|callback: CosmosMsg| is_flash_loan(
            r.messages@[0].msg,
            config.ust_vault_address,
            config.stable_denom,
            ust_to_borrow@ as u128,
            callback,
        ) && is_callback(
            callback,
            *contract_address,
            CallbackMsg::InitiateLiquidationCallback { user_address, debt_asset, collateral_asset, max_loss_amount },
        ),
        attrs(r.attributes@) == seq![
            ("action"@, "redbank_helper::ExecuteMsg::LiquidatePosition"@),
            ("user_address"@, user_address@),
            ("loan_asked"@, decimal(ust_to_borrow@)),
        ],
{
    let user = user_address.clone();
    let cb = CallbackMsg::InitiateLiquidationCallback { user_address, debt_asset, collateral_asset, max_loss_amount };
    let callback = cb.to_cosmos_msg(contract_address);
    let flash_loan_msg = build_flash_loan_msg(
        config.ust_vault_address.clone(),
        config.stable_denom.clone(),
        ust_to_borrow,
        callback,
    );
    let r = Response::new().add_message(flash_loan_msg).add_attribute(
        "action",
        String::from_str("redbank_helper::ExecuteMsg::LiquidatePosition"),
    ).add_attribute("user_address", user).add_attribute("loan_asked", ust_to_borrow.to_string());
    assert(attrs(r.attributes@) =~= seq![
        ("action"@, "redbank_helper::ExecuteMsg::LiquidatePosition"@),
        ("user_address"@, user_address@),
        ("loan_asked"@, decimal(ust_to_borrow@)),
    ]);
    r
}

/// Whether an asset must be swapped against UST: a token, or a native coin other than UST.
pub open spec fn needs_swap(config: Config, asset: MarsAsset) -> bool {
    match asset {
        MarsAsset::Cw20 { .. } => true,
        MarsAsset::Native { denom } => denom@ != config.stable_denom@,
    }
}

/// Why buying the debt asset with `ust` UST fails, if it does.
pub open spec fn purchase_failure(config: Config, tax: TaxInfo, asset: MarsAsset, ust: u128, addr_valid: bool) -> Option<ContractError> {
    if asset is Cw20 && !addr_valid {
        Some(ContractError::InvalidAddress)
    } else if needs_swap(config, asset) && coin_tax(config.stable_denom@, ust as int, tax) is None {
        Some(ContractError::TaxQueryFailed)
    } else {
        None
    }
}

/// `m` buys the debt asset with `ust` UST, less tax, through the router.
pub open spec fn is_purchase(m: CosmosMsg, config: Config, tax: TaxInfo, asset: MarsAsset, ust: u128) -> bool {
    let offered = taxed_coin(tax, config.stable_denom, ust);
    match asset {
        MarsAsset::Cw20 { contract_addr } => is_router_native_swap(
            m,
            config.astroport_router,
            offered,
            SwapOperation::AstroSwap {
                offer_asset_info: AssetInfo::NativeToken { denom: config.stable_denom },
                ask_asset_info: AssetInfo::Token { contract_addr },
            },
        ),
        MarsAsset::Native { denom } => is_router_native_swap(
            m,
            config.astroport_router,
            offered,
            SwapOperation::NativeSwap { offer_denom: config.stable_denom, ask_denom: denom },
        ),
    }
}

/// The identifier of a Red Bank asset: its contract address or its denomination.
pub open spec fn mars_asset_id(asset: MarsAsset) -> Seq<char> {
    match asset {
        MarsAsset::Cw20 { contract_addr } => contract_addr@,
        MarsAsset::Native { denom } => denom@,
    }
}

fn asset_id(asset: &MarsAsset) -> (s: String)
    ensures
        s@ == mars_asset_id(*asset),
{
    match asset {
        MarsAsset::Cw20 { contract_addr } => contract_addr.clone(),
        MarsAsset::Native { denom } => denom.clone(),
    }
}

/// The attribute that reports a swap of `asset` against UST, under `cw20_key` for a token
/// and `native_key` for a coin; none when the asset is UST.
pub open spec fn swap_attrs(
    config: Config,
    asset: MarsAsset,
    cw20_key: Seq<char>,
    native_key: Seq<char>,
) -> Seq<(Seq<char>, Seq<char>)> {
    if needs_swap(config, asset) {
        seq![(if asset is Cw20 { cw20_key } else { native_key }, mars_asset_id(asset))]
    } else {
        Seq::empty()
    }
}

/// What `initiate_liquidation_callback` answers.
pub open spec fn initiate_liquidation_post(
    config: Config,
    tax: TaxInfo,
    contract_address: String,
    funds: Seq<Coin>,
    user_address: String,
    debt_asset: MarsAsset,
    collateral_asset: MarsAsset,
    max_loss_amount: Uint256,
    debt_addr_valid: bool,
    r: Result<Response, ContractError>,
) -> bool {
    let ust = coin_amount(funds, config.stable_denom@);
    let n: int = if needs_swap(config, debt_asset) { 1 } else { 0 };
    &&& r is Err <==> purchase_failure(config, tax, debt_asset, ust, debt_addr_valid) is Some
    &&& r matches Err(e) ==> purchase_failure(config, tax, debt_asset, ust, debt_addr_valid) == Some(e)
    &&& r matches Ok(resp) ==> resp.messages@.len() == n + 1
        && (forall|i: int| 0 <= i < resp.messages@.len() ==> resp.messages@[i] == plain(#[trigger] resp.messages@[i].msg))
        && (n == 1 ==> is_purchase(resp.messages@[0].msg, config, tax, debt_asset, ust))
        && attrs(resp.attributes@) == seq![("Action"@, "Mars_Liquidation"@)] + swap_attrs(
            config,
            debt_asset,
            "astroport_buy_cw20_for_ust"@,
            "astroport_buy_native_for_ust"@,
        )
        && is_callback(
            resp.messages@[n].msg,
            contract_address,
            CallbackMsg::AfterDebtAssetBuyCallback {
                user_address,
                debt_asset,
                collateral_asset,
                ust_amount: u256(ust),
                max_loss_amount,
            },
        )
}

/// Runs with the loaned UST: buys the debt asset with all the UST sent, unless the debt is
/// in UST, then hands on to `AfterDebtAssetBuyCallback`. `debt_addr_valid` is the chain's
/// verdict on a token debt asset's address.
pub fn initiate_liquidation_callback(
    config: &Config,
    tax: &TaxInfo,
    contract_address: &String,
    funds: &Vec<Coin>,
    user_address: String,
    debt_asset: MarsAsset,
    collateral_asset: MarsAsset,
    max_loss_amount: Uint256,
    debt_addr_valid: bool,
) -> (r: Result<Response, ContractError>)
    requires
        rate_ok(tax.rate),
    ensures
        initiate_liquidation_post(
            *config,
            *tax,
            *contract_address,
            funds@,
            user_address,
            debt_asset,
            collateral_asset,
            max_loss_amount,
            debt_addr_valid,
            r,
        ),
{
    let ust_amount = get_denom_amount_from_coins(funds, &config.stable_denom);
    let ust: u128 = ust_amount.to_u128();
    let mut response = Response::new().add_attribute("Action", String::from_str("Mars_Liquidation"));
    let ghost head = seq![("Action"@, "Mars_Liquidation"@)];
    assert(attrs(response.attributes@) =~= head);
    match &debt_asset {
        MarsAsset::Cw20 { contract_addr } => {
            if !debt_addr_valid {
                return Err(ContractError::InvalidAddress);
            }
            let trade_msg = trade_native_for_cw20_on_astroport(
                tax,
                config.astroport_router.clone(),
                config.stable_denom.clone(),
                ust,
                contract_addr.clone(),
            )?;
            response = response.add_message(trade_msg).add_attribute("astroport_buy_cw20_for_ust", contract_addr.clone());
        },
        MarsAsset::Native { denom } => {
            if *denom != config.stable_denom {
                let trade_msg = trade_native_for_native_on_astroport(
                    tax,
                    config.astroport_router.clone(),
                    config.stable_denom.clone(),
                    ust,
                    denom.clone(),
                )?;
                response = response.add_message(trade_msg).add_attribute("astroport_buy_native_for_ust", denom.clone());
            }
        },
    }
    assert(attrs(response.attributes@) =~= head + swap_attrs(
        *config,
        debt_asset,
        "astroport_buy_cw20_for_ust"@,
        "astroport_buy_native_for_ust"@,
    ));
    let callback = CallbackMsg::AfterDebtAssetBuyCallback {
        user_address,
        debt_asset,
        collateral_asset,
        ust_amount,
        max_loss_amount,
    };
    let msg = callback.to_cosmos_msg(contract_address);
    Ok(response.add_message(msg))
}

/// `m` repays `amount` of the debt asset to the Red Bank and liquidates `user_address`'s
/// collateral: tokens are sent with a `LiquidateCw20` hook; native coins, less tax, go with
/// `LiquidateNative`.
pub open spec fn is_repayment(
    m: CosmosMsg,
    config: Config,
    tax: TaxInfo,
    debt_asset: MarsAsset,
    collateral_asset: MarsAsset,
    amount: u128,
    user_address: String,
) -> bool {
    match debt_asset {
        MarsAsset::Cw20 { contract_addr } => is_cw20_send(m, contract_addr, config.red_bank_addr, amount) && hook_of(m)
            == ExecutePayload::MarsLiquidation(MarsLiquidationMsg::LiquidateCw20 {
            collateral_asset,
            user_address,
            receive_ma_token: false,
        }),
        MarsAsset::Native { denom } => is_execute(m, config.red_bank_addr, seq![taxed_coin(tax, denom, amount)])
            && payload_of(m) == ExecutePayload::MarsLiquidation(MarsLiquidationMsg::LiquidateNative {
            collateral_asset,
            debt_asset_denom: denom,
            user_address,
            receive_ma_token: false,
        }),
    }
}

/// Repays a native loan (`build_liquidate_native_asset_loan_on_red_bank`).
fn build_liquidate_native_asset_loan_on_red_bank(
    tax: &TaxInfo,
    red_bank_addr: String,
    collateral_asset: MarsAsset,
    debt_asset_denom: String,
    amount_to_repay: u128,
    user_address: String,
) -> (r: Result<CosmosMsg, ContractError>)
    requires
        rate_ok(tax.rate),
    ensures
        r is Err <==> coin_tax(debt_asset_denom@, amount_to_repay as int, *tax) is None,
        r is Err ==> r == Err::<CosmosMsg, ContractError>(ContractError::TaxQueryFailed),
        r matches Ok(m) ==> is_execute(m, red_bank_addr, seq![taxed_coin(*tax, debt_asset_denom, amount_to_repay)])
            && payload_of(m) == ExecutePayload::MarsLiquidation(MarsLiquidationMsg::LiquidateNative {
            collateral_asset,
            debt_asset_denom,
            user_address,
            receive_ma_token: false,
        }),
{
    let coin = match deduct_tax(tax, &Coin { denom: debt_asset_denom.clone(), amount: amount_to_repay }) {
        Some(c) => c,
        None => return Err(ContractError::TaxQueryFailed),
    };
    Ok(execute_msg_with_coin(
        red_bank_addr,
        ExecutePayload::MarsLiquidation(MarsLiquidationMsg::LiquidateNative {
            collateral_asset,
            debt_asset_denom,
            user_address,
            receive_ma_token: false,
        }),
        coin,
    ))
}

/// Repays a CW20 loan (`build_liquidate_cw20_asset_loan_on_red_bank`).
fn build_liquidate_cw20_asset_loan_on_red_bank(
    red_bank_addr: String,
    collateral_asset: MarsAsset,
    debt_asset_addr: String,
    amount_to_repay: u128,
    user_address: String,
) -> (m: CosmosMsg)
    ensures
        is_cw20_send(m, debt_asset_addr, red_bank_addr, amount_to_repay),
        hook_of(m) == ExecutePayload::MarsLiquidation(MarsLiquidationMsg::LiquidateCw20 {
            collateral_asset,
            user_address,
            receive_ma_token: false,
        }),
{
    cw20_send_msg(
        red_bank_addr,
        debt_asset_addr,
        amount_to_repay,
        ExecutePayload::MarsLiquidation(MarsLiquidationMsg::LiquidateCw20 {
            collateral_asset,
            user_address,
            receive_ma_token: false,
        }),
    )
}

/// Why repaying `amount` of the debt asset fails, if it does.
pub open spec fn repayment_failure(tax: TaxInfo, debt_asset: MarsAsset, amount: u128, addr_valid: bool) -> Option<ContractError> {
    match debt_asset {
        MarsAsset::Cw20 { .. } => if !addr_valid { Some(ContractError::InvalidAddress) } else { None },
        MarsAsset::Native { denom } => if coin_tax(denom@, amount as int, tax) is None {
            Some(ContractError::TaxQueryFailed)
        } else {
            None
        },
    }
}

/// What `after_debt_asset_callback` answers.
pub open spec fn after_debt_asset_post(
    config: Config,
    tax: TaxInfo,
    contract_address: String,
    user_address: String,
    debt_asset: MarsAsset,
    collateral_asset: MarsAsset,
    ust_amount: Uint256,
    max_loss_amount: Uint256,
    debt_addr_valid: bool,
    debt_balance: u128,
    r: Result<Response, ContractError>,
) -> bool {
    &&& r is Err <==> repayment_failure(tax, debt_asset, debt_balance, debt_addr_valid) is Some
    &&& r matches Err(e) ==> repayment_failure(tax, debt_asset, debt_balance, debt_addr_valid) == Some(e)
    &&& r matches Ok(resp) ==> resp.messages@.len() == 2
        && resp.messages@[0] == plain(resp.messages@[0].msg)
        && resp.messages@[1] == plain(resp.messages@[1].msg)
        && is_repayment(resp.messages@[0].msg, config, tax, debt_asset, collateral_asset, debt_balance, user_address)
        && attrs(resp.attributes@) == seq![
            ("Action"@, "Mars_Liquidation"@),
            ("user_being_liquidated"@, user_address@),
            (if debt_asset is Cw20 { "liquidate_cw20_loan"@ } else { "liquidate_native_loan"@ }, mars_asset_id(debt_asset)),
        ]
        && is_callback(
            resp.messages@[1].msg,
            contract_address,
            CallbackMsg::AfterLiquidationCallback { debt_asset, collateral_asset, ust_amount, max_loss_amount },
        )
}

/// Runs once the debt asset is bought: repays the user's loan with the whole balance of it,
/// then hands on to `AfterLiquidationCallback`. `debt_balance` is the contract's balance
/// of the debt asset, as the chain answers; `debt_addr_valid` is the chain's verdict on a
/// token debt asset's address.
pub fn after_debt_asset_callback(
    config: &Config,
    tax: &TaxInfo,
    contract_address: &String,
    user_address: String,
    debt_asset: MarsAsset,
    collateral_asset: MarsAsset,
    ust_amount: Uint256,
    max_loss_amount: Uint256,
    debt_addr_valid: bool,
    debt_balance: u128,
) -> (r: Result<Response, ContractError>)
    requires
        rate_ok(tax.rate),
    ensures
        after_debt_asset_post(
            *config,
            *tax,
            *contract_address,
            user_address,
            debt_asset,
            collateral_asset,
            ust_amount,
            max_loss_amount,
            debt_addr_valid,
            debt_balance,
            r,
        ),
{
    let user = user_address.clone();
    let id = asset_id(&debt_asset);
    let key = if debt_asset.is_cw20() { "liquidate_cw20_loan" } else { "liquidate_native_loan" };
    let liquidate_msg = match &debt_asset {
        MarsAsset::Cw20 { contract_addr } => {
            if !debt_addr_valid {
                return Err(ContractError::InvalidAddress);
            }
            build_liquidate_cw20_asset_loan_on_red_bank(
                config.red_bank_addr.clone(),
                collateral_asset.duplicate(),
                contract_addr.clone(),
                debt_balance,
                user_address,
            )
        },
        MarsAsset::Native { denom } => build_liquidate_native_asset_loan_on_red_bank(
            tax,
            config.red_bank_addr.clone(),
            collateral_asset.duplicate(),
            denom.clone(),
            debt_balance,
            user_address,
        )?,
    };
    let ghost expected = seq![
        ("Action"@, "Mars_Liquidation"@),
        ("user_being_liquidated"@, user_address@),
        (if debt_asset is Cw20 { "liquidate_cw20_loan"@ } else { "liquidate_native_loan"@ }, mars_asset_id(debt_asset)),
    ];
    let callback = CallbackMsg::AfterLiquidationCallback { debt_asset, collateral_asset, ust_amount, max_loss_amount };
    let msg = callback.to_cosmos_msg(contract_address);
    let resp = Response::new().add_attribute("Action", String::from_str("Mars_Liquidation")).add_attribute(
        "user_being_liquidated",
        user,
    ).add_message(liquidate_msg).add_attribute(key, id).add_message(msg);
    assert(attrs(resp.attributes@) =~= expected);
    Ok(resp)
}

/// Why selling `balance` of an asset for UST fails, if it does.
pub open spec fn sale_failure(config: Config, tax: TaxInfo, asset: MarsAsset, balance: u128, addr_valid: bool) -> Option<ContractError> {
    match asset {
        MarsAsset::Cw20 { .. } => if !addr_valid { Some(ContractError::InvalidAddress) } else { None },
        MarsAsset::Native { denom } => if denom@ != config.stable_denom@ && coin_tax(denom@, balance as int, tax) is None {
            Some(ContractError::TaxQueryFailed)
        } else {
            None
        },
    }
}

/// `m` sells `balance` of the asset for UST through the router; native coins go less tax.
pub open spec fn is_sale(m: CosmosMsg, config: Config, tax: TaxInfo, asset: MarsAsset, balance: u128) -> bool {
    match asset {
        MarsAsset::Cw20 { contract_addr } => is_router_cw20_swap(
            m,
            config.astroport_router,
            contract_addr,
            balance,
            SwapOperation::AstroSwap {
                offer_asset_info: AssetInfo::Token { contract_addr },
                ask_asset_info: AssetInfo::NativeToken { denom: config.stable_denom },
            },
        ),
        MarsAsset::Native { denom } => is_router_native_swap(
            m,
            config.astroport_router,
            taxed_coin(tax, denom, balance),
            SwapOperation::NativeSwap { offer_denom: denom, ask_denom: config.stable_denom },
        ),
    }
}

/// Sells the contract's whole balance of an asset for UST; nothing to do for UST itself.
fn sell_for_stable(
    config: &Config,
    tax: &TaxInfo,
    asset: &MarsAsset,
    balance: u128,
    addr_valid: bool,
) -> (r: Result<Option<CosmosMsg>, ContractError>)
    requires
        rate_ok(tax.rate),
    ensures
        r is Err <==> sale_failure(*config, *tax, *asset, balance, addr_valid) is Some,
        r matches Err(e) ==> sale_failure(*config, *tax, *asset, balance, addr_valid) == Some(e),
        r matches Ok(o) ==> (o is Some <==> needs_swap(*config, *asset)),
        r matches Ok(Some(m)) ==> is_sale(m, *config, *tax, *asset, balance),
{
    match asset {
        MarsAsset::Cw20 { contract_addr } => {
            if !addr_valid {
                return Err(ContractError::InvalidAddress);
            }
            Ok(Some(trade_cw20_for_native_on_astroport(
                config.astroport_router.clone(),
                contract_addr.clone(),
                balance,
                config.stable_denom.clone(),
            )))
        },
        MarsAsset::Native { denom } => {
            if *denom == config.stable_denom {
                return Ok(None);
            }
            let m = trade_native_for_native_on_astroport(
                tax,
                config.astroport_router.clone(),
                denom.clone(),
                balance,
                config.stable_denom.clone(),
            )?;
            Ok(Some(m))
        },
    }
}

/// What the chain answers the liquidation callbacks about one asset: whether its token
/// address is valid, and the contract's balance of it.
#[derive(Clone, Copy, Debug, PartialEq, Eq, Structural)]
pub struct AssetHolding {
    pub addr_valid: bool,
    pub balance: u128,
}

/// What `after_liquidation_callback` answers.
pub open spec fn after_liquidation_post(
    config: Config,
    tax: TaxInfo,
    contract_address: String,
    debt_asset: MarsAsset,
    collateral_asset: MarsAsset,
    ust_amount: Uint256,
    max_loss_amount: Uint256,
    debt: AssetHolding,
    collateral: AssetHolding,
    r: Result<Response, ContractError>,
) -> bool {
    let failure = match sale_failure(config, tax, debt_asset, debt.balance, debt.addr_valid) {
        Some(e) => Some(e),
        None => sale_failure(config, tax, collateral_asset, collateral.balance, collateral.addr_valid),
    };
    let nd: int = if needs_swap(config, debt_asset) { 1 } else { 0 };
    let nc: int = if needs_swap(config, collateral_asset) { 1 } else { 0 };
    &&& r is Err <==> failure is Some
    &&& r matches Err(e) ==> failure == Some(e)
    &&& r matches Ok(resp) ==> resp.messages@.len() == nd + nc + 1
        && (forall|i: int| 0 <= i < resp.messages@.len() ==> resp.messages@[i] == plain(#[trigger] resp.messages@[i].msg))
        && (nd == 1 ==> is_sale(resp.messages@[0].msg, config, tax, debt_asset, debt.balance))
        && (nc == 1 ==> is_sale(resp.messages@[nd].msg, config, tax, collateral_asset, collateral.balance))
        && attrs(resp.attributes@) == seq![("Action"@, "Mars_Liquidation"@)] + swap_attrs(
            config,
            debt_asset,
            "after_liquidation_sell_cw20_debt"@,
            "after_liquidation_sell_native_debt"@,
        ) + swap_attrs(
            config,
            collateral_asset,
            "after_liquidation_sell_cw20_collateral"@,
            "after_liquidation_sell_native_collateral"@,
        )
        && is_callback(
            resp.messages@[nd + nc].msg,
            contract_address,
            CallbackMsg::AfterAssetsSellCallback { ust_amount, max_loss_amount },
        )
}

/// Runs once the loan is repaid: sells what is left of the debt asset, then the collateral
/// received, each for UST unless it is UST, and hands on to `AfterAssetsSellCallback`.
/// `debt` and `collateral` are the chain's answers about the two assets.
pub fn after_liquidation_callback(
    config: &Config,
    tax: &TaxInfo,
    contract_address: &String,
    debt_asset: MarsAsset,
    collateral_asset: MarsAsset,
    ust_amount: Uint256,
    max_loss_amount: Uint256,
    debt: AssetHolding,
    collateral: AssetHolding,
) -> (r: Result<Response, ContractError>)
    requires
        rate_ok(tax.rate),
    ensures
        after_liquidation_post(
            *config,
            *tax,
            *contract_address,
            debt_asset,
            collateral_asset,
            ust_amount,
            max_loss_amount,
            debt,
            collateral,
            r,
        ),
{
    let mut response = Response::new().add_attribute("Action", String::from_str("Mars_Liquidation"));
    let ghost head = seq![("Action"@, "Mars_Liquidation"@)];
    let ghost debt_attrs = swap_attrs(
        *config,
        debt_asset,
        "after_liquidation_sell_cw20_debt"@,
        "after_liquidation_sell_native_debt"@,
    );
    let ghost collateral_attrs = swap_attrs(
        *config,
        collateral_asset,
        "after_liquidation_sell_cw20_collateral"@,
        "after_liquidation_sell_native_collateral"@,
    );
    let debt_sale = sell_for_stable(config, tax, &debt_asset, debt.balance, debt.addr_valid)?;
    if let Some(m) = debt_sale {
        let key = if debt_asset.is_cw20() {
            "after_liquidation_sell_cw20_debt"
        } else {
            "after_liquidation_sell_native_debt"
        };
        response = response.add_message(m).add_attribute(key, asset_id(&debt_asset));
    }
    assert(attrs(response.attributes@) =~= head + debt_attrs);
    let collateral_sale = sell_for_stable(config, tax, &collateral_asset, collateral.balance, collateral.addr_valid)?;
    if let Some(m) = collateral_sale {
        let key = if collateral_asset.is_cw20() {
            "after_liquidation_sell_cw20_collateral"
        } else {
            "after_liquidation_sell_native_collateral"
        };
        response = response.add_message(m).add_attribute(key, asset_id(&collateral_asset));
    }
    assert(attrs(response.attributes@) =~= head + debt_attrs + collateral_attrs);
    let callback = CallbackMsg::AfterAssetsSellCallback { ust_amount, max_loss_amount };
    let msg = callback.to_cosmos_msg(contract_address);
    Ok(response.add_message(msg))
}

/// The UST that counts as returned: the balance less the tax on sending it back.
pub open spec fn returned_ust(config: Config, tax: TaxInfo, ust_balance: u128) -> Option<int> {
    match coin_tax(config.stable_denom@, ust_balance as int, tax) {
        Some(t) => Some(ust_balance - t),
        None => None,
    }
}

/// The inputs on which `after_assets_sell_callback` neither panics nor overflows: the
/// tolerated loss is at most the loan, and a profit can be recorded.
pub open spec fn liquidation_fits(
    state: State,
    config: Config,
    tax: TaxInfo,
    ust_balance: u128,
    ust_amount: Uint256,
    max_loss_amount: Uint256,
) -> bool {
    match returned_ust(config, tax, ust_balance) {
        Some(n) => max_loss_amount@ <= ust_amount@ && (ust_amount@ - max_loss_amount@ < n ==> state.total_liquidations
            < u64::MAX && state.total_ust_profit@ + (n - (ust_amount@ - max_loss_amount@)) < two_pow_256()),
        None => true,
    }
}

/// What `after_assets_sell_callback` answers and leaves behind.
pub open spec fn after_assets_sell_post(
    config: Config,
    tax: TaxInfo,
    ust_balance: u128,
    ust_amount: Uint256,
    max_loss_amount: Uint256,
    old_state: State,
    new_state: State,
    r: Result<Response, ContractError>,
) -> bool {
    match returned_ust(config, tax, ust_balance) {
        None => r == Err::<Response, ContractError>(ContractError::TaxQueryFailed) && new_state == old_state,
        Some(n) => {
            let minimum = ust_amount@ - max_loss_amount@;
            if n <= minimum {
                &&& r matches Err(ContractError::InsufficientReturn { received, minimum: m })
                &&& received@ == n
                &&& m@ == minimum
                &&& new_state == old_state
            } else {
                &&& new_state.total_liquidations == old_state.total_liquidations + 1
                &&& new_state.total_ust_profit@ == old_state.total_ust_profit@ + (n - minimum)
                &&& r matches Ok(resp) && resp.messages@.len() == 1 && resp.messages@[0] == plain(resp.messages@[0].msg)
                    && is_bank_send(
                    resp.messages@[0].msg,
                    config.ust_vault_address,
                    seq![taxed_coin(tax, config.stable_denom, ust_balance)],
                ) && attrs(resp.attributes@) == seq![
                    ("return_ust_to_vault"@, decimal(ust_balance as nat)),
                    ("profit"@, decimal((n - minimum) as nat)),
                ]
            }
        },
    }
}

/// Runs once everything is sold: the UST held, less the tax on returning it, must exceed
/// the loan less the tolerated loss; the profit over that minimum is recorded and all the
/// UST goes back to the vault. `ust_balance` is the contract's UST balance, as the chain
/// answers.
pub fn after_assets_sell_callback(
    config: &Config,
    state: &mut State,
    tax: &TaxInfo,
    ust_balance: u128,
    ust_amount: Uint256,
    max_loss_amount: Uint256,
) -> (r: Result<Response, ContractError>)
    requires
        rate_ok(tax.rate),
        liquidation_fits(*old(state), *config, *tax, ust_balance, ust_amount, max_loss_amount),
    ensures
        after_assets_sell_post(*config, *tax, ust_balance, ust_amount, max_loss_amount, *old(state), *final(state), r),
{
    let t = match compute_tax(tax, &config.stable_denom, ust_balance) {
        Some(t) => t,
        None => return Err(ContractError::TaxQueryFailed),
    };
    proof {
        if config.stable_denom@ != luna_denom() {
            lemma_tax_le_amount(ust_balance as int, tax.rate, cap_of(tax.caps@, config.stable_denom@)->0 as int);
        }
    }
    let min_ust_balance = ust_amount.sub(&max_loss_amount);
    let computed_ust_balance = Uint256::from_u128(ust_balance - t);
    if !min_ust_balance.lt(&computed_ust_balance) {
        return Err(ContractError::InsufficientReturn { received: computed_ust_balance, minimum: min_ust_balance });
    }
    let profit = computed_ust_balance.sub(&min_ust_balance);
    let send_native_asset_msg = build_send_native_asset_msg(
        tax,
        config.ust_vault_address.clone(),
        &config.stable_denom,
        Uint256::from_u128(ust_balance),
    )?;
    state.total_liquidations = state.total_liquidations + 1;
    state.total_ust_profit = state.total_ust_profit.add(&profit);
    let resp = Response::new().add_message(send_native_asset_msg).add_attribute(
        "return_ust_to_vault",
        u128_to_string(ust_balance),
    ).add_attribute("profit", profit.to_string());
    assert(attrs(resp.attributes@) =~= seq![
        ("return_ust_to_vault"@, decimal(ust_balance as nat)),
        ("profit"@, decimal(profit@)),
    ]);
    Ok(resp)
}

/// The liquidation must give back all the UST lent: once the debt asset is bought (or
/// needs no purchase), the amount handed on to `AfterDebtAssetBuyCallback`, from which the
/// least return is reckoned, is the whole amount of the first coin of the stable
/// denomination that came with the loan, not that amount less tax; with no such coin it is
/// zero.
pub proof fn law_callback_carries_the_whole_loan(
    config: Config,
    tax: TaxInfo,
    contract_address: String,
    funds: Seq<Coin>,
    user_address: String,
    debt_asset: MarsAsset,
    collateral_asset: MarsAsset,
    max_loss_amount: Uint256,
    debt_addr_valid: bool,
    r: Result<Response, ContractError>,
)
    requires
        initiate_liquidation_post(
            config,
            tax,
            contract_address,
            funds,
            user_address,
            debt_asset,
            collateral_asset,
            max_loss_amount,
            debt_addr_valid,
            r,
        ),
        r is Ok,
    ensures
        forall|i: int|
            0 <= i < funds.len() && #[trigger] funds[i].denom@ == config.stable_denom@ && (forall|j: int|
                0 <= j < i ==> (#[trigger] funds[j]).denom@ != config.stable_denom@) ==> (r matches Ok(resp)
                && is_callback(
                resp.messages@[resp.messages@.len() - 1].msg,
                contract_address,
                CallbackMsg::AfterDebtAssetBuyCallback {
                    user_address,
                    debt_asset,
                    collateral_asset,
                    ust_amount: u256(funds[i].amount),
                    max_loss_amount,
                },
            )),
        (forall|j: int| 0 <= j < funds.len() ==> (#[trigger] funds[j]).denom@ != config.stable_denom@) ==> (r matches Ok(
            resp,
        ) && is_callback(
            resp.messages@[resp.messages@.len() - 1].msg,
            contract_address,
            CallbackMsg::AfterDebtAssetBuyCallback {
                user_address,
                debt_asset,
                collateral_asset,
                ust_amount: u256(0),
                max_loss_amount,
            },
        )),
{
    assert forall|i: int|
        0 <= i < funds.len() && #[trigger] funds[i].denom@ == config.stable_denom@ && (forall|j: int|
            0 <= j < i ==> (#[trigger] funds[j]).denom@ != config.stable_denom@) implies (r matches Ok(resp)
            && is_callback(
            resp.messages@[resp.messages@.len() - 1].msg,
            contract_address,
            CallbackMsg::AfterDebtAssetBuyCallback {
                user_address,
                debt_asset,
                collateral_asset,
                ust_amount: u256(funds[i].amount),
                max_loss_amount,
            },
        )) by {
        lemma_coin_amount_is_first_coin(funds, config.stable_denom@, i);
    }
    if forall|j: int| 0 <= j < funds.len() ==> (#[trigger] funds[j]).denom@ != config.stable_denom@ {
        lemma_coin_amount_absent(funds, config.stable_denom@);
    }
}

/// A finished liquidation never lowers the books: the count of liquidations and the
/// recorded profit only grow, and they grow, by one and by a positive profit, exactly
/// when the liquidation succeeds.
pub proof fn law_profit_only_grows(
    config: Config,
    tax: TaxInfo,
    ust_balance: u128,
    ust_amount: Uint256,
    max_loss_amount: Uint256,
    old_state: State,
    new_state: State,
    r: Result<Response, ContractError>,
)
    requires
        after_assets_sell_post(config, tax, ust_balance, ust_amount, max_loss_amount, old_state, new_state, r),
    ensures
        new_state.total_liquidations >= old_state.total_liquidations,
        new_state.total_ust_profit@ >= old_state.total_ust_profit@,
        r is Ok ==> new_state.total_liquidations == old_state.total_liquidations + 1 && new_state.total_ust_profit@
            > old_state.total_ust_profit@,
        r is Err ==> new_state == old_state,
{
}

/// A liquidation succeeds only when it loses less than the tolerated amount: the UST
/// returned to the vault, net of tax, exceeds the loan less `max_loss_amount`.
pub proof fn law_loss_within_tolerance(
    config: Config,
    tax: TaxInfo,
    ust_balance: u128,
    ust_amount: Uint256,
    max_loss_amount: Uint256,
    old_state: State,
    new_state: State,
    r: Result<Response, ContractError>,
)
    requires
        after_assets_sell_post(config, tax, ust_balance, ust_amount, max_loss_amount, old_state, new_state, r),
        r is Ok,
    ensures
        returned_ust(config, tax, ust_balance) matches Some(n) && n > ust_amount@ - max_loss_amount@,
{
}

/// The helper liquidates an asset at most once.
pub open spec fn assets_unique(assets: Seq<RedBankAssetsInfo>) -> bool {
    forall|i: int, j: int|
        0 <= i < j < assets.len() ==> !same_mars_asset(#[trigger] assets[i].asset_info, #[trigger] assets[j].asset_info)
}

/// Adding an asset keeps the supported assets distinct: `handle_add_asset` adds only an
/// asset that is not supported yet.
pub proof fn law_add_asset_keeps_assets_unique(assets: Seq<RedBankAssetsInfo>, new_asset: RedBankAssetsInfo)
    requires
        assets_unique(assets),
        !asset_supported(assets, new_asset.asset_info),
    ensures
        assets_unique(assets.push(new_asset)),
{
    assert forall|i: int, j: int| 0 <= i < j < assets.push(new_asset).len() implies !same_mars_asset(
        #[trigger] assets.push(new_asset)[i].asset_info,
        #[trigger] assets.push(new_asset)[j].asset_info,
    ) by {
        assert(assets.push(new_asset)[i] == assets[i]);
        if j == assets.len() {
            if same_mars_asset(assets[i].asset_info, new_asset.asset_info) {
                assert(asset_supported(assets, new_asset.asset_info));
            }
        } else {
            assert(assets.push(new_asset)[j] == assets[j]);
        }
    }
}

/// The inputs of the callbacks that come from the chain: the coins sent with the call,
/// what it answers about the debt and the collateral assets, and the UST balance.
#[derive(Clone, Debug, PartialEq)]
pub struct CallbackContext {
    pub funds: Vec<Coin>,
    pub debt: AssetHolding,
    pub collateral: AssetHolding,
    pub ust_balance: u128,
}

/// Runs a callback; only the contract itself may call them.
pub fn handle_callback(
    config: &Config,
    state: &mut State,
    tax: &TaxInfo,
    sender: &String,
    contract_address: &String,
    msg: CallbackMsg,
    ctx: &CallbackContext,
) -> (r: Result<Response, ContractError>)
    requires
        rate_ok(tax.rate),
        msg matches CallbackMsg::AfterAssetsSellCallback { ust_amount, max_loss_amount } ==> liquidation_fits(
            *old(state),
            *config,
            *tax,
            ctx.ust_balance,
            ust_amount,
            max_loss_amount,
        ),
    ensures
        sender@ != contract_address@ ==> r == Err::<Response, ContractError>(ContractError::CallbackFromOutside)
            && *final(state) == *old(state),
        sender@ == contract_address@ ==> match msg {
            CallbackMsg::InitiateLiquidationCallback { user_address, debt_asset, collateral_asset, max_loss_amount } => {
                *final(state) == *old(state) && initiate_liquidation_post(
                    *config,
                    *tax,
                    *contract_address,
                    ctx.funds@,
                    user_address,
                    debt_asset,
                    collateral_asset,
                    max_loss_amount,
                    ctx.debt.addr_valid,
                    r,
                )
            },
            CallbackMsg::AfterDebtAssetBuyCallback { user_address, debt_asset, collateral_asset, ust_amount, max_loss_amount } => {
                *final(state) == *old(state) && after_debt_asset_post(
                    *config,
                    *tax,
                    *contract_address,
                    user_address,
                    debt_asset,
                    collateral_asset,
                    ust_amount,
                    max_loss_amount,
                    ctx.debt.addr_valid,
                    ctx.debt.balance,
                    r,
                )
            },
            CallbackMsg::AfterLiquidationCallback { debt_asset, collateral_asset, ust_amount, max_loss_amount } => {
                *final(state) == *old(state) && after_liquidation_post(
                    *config,
                    *tax,
                    *contract_address,
                    debt_asset,
                    collateral_asset,
                    ust_amount,
                    max_loss_amount,
                    ctx.debt,
                    ctx.collateral,
                    r,
                )
            },
            CallbackMsg::AfterAssetsSellCallback { ust_amount, max_loss_amount } => after_assets_sell_post(
                *config,
                *tax,
                ctx.ust_balance,
                ust_amount,
                max_loss_amount,
                *old(state),
                *final(state),
                r,
            ),
        },
{
    if *sender != *contract_address {
        return Err(ContractError::CallbackFromOutside);
    }
    match msg {
        CallbackMsg::InitiateLiquidationCallback { user_address, debt_asset, collateral_asset, max_loss_amount } => {
            initiate_liquidation_callback(
                config,
                tax,
                contract_address,
                &ctx.funds,
                user_address,
                debt_asset,
                collateral_asset,
                max_loss_amount,
                ctx.debt.addr_valid,
            )
        },
        CallbackMsg::AfterDebtAssetBuyCallback { user_address, debt_asset, collateral_asset, ust_amount, max_loss_amount } => {
            after_debt_asset_callback(
                config,
                tax,
                contract_address,
                user_address,
                debt_asset,
                collateral_asset,
                ust_amount,
                max_loss_amount,
                ctx.debt.addr_valid,
                ctx.debt.balance,
            )
        },
        CallbackMsg::AfterLiquidationCallback { debt_asset, collateral_asset, ust_amount, max_loss_amount } => {
            after_liquidation_callback(
                config,
                tax,
                contract_address,
                debt_asset,
                collateral_asset,
                ust_amount,
                max_loss_amount,
                ctx.debt,
                ctx.collateral,
            )
        },
        CallbackMsg::AfterAssetsSellCallback { ust_amount, max_loss_amount } => after_assets_sell_callback(
            config,
            state,
            tax,
            ctx.ust_balance,
            ust_amount,
            max_loss_amount,
        ),
    }
}

/// A copy of the list of supported assets.
fn copy_assets(assets: &Vec<RedBankAssetsInfo>) -> (r: Vec<RedBankAssetsInfo>)
    ensures
        r@ == assets@,
{
    let mut out: Vec<RedBankAssetsInfo> = Vec::new();
    let mut i: usize = 0;
    while i < assets.len()
        invariant
            i <= assets@.len(),
            out@ == assets@.subrange(0, i as int),
        decreases assets@.len() - i,
    {
        out.push(assets[i].duplicate());
        i = i + 1;
        assert(out@ =~= assets@.subrange(0, i as int));
    }
    assert(assets@.subrange(0, assets@.len() as int) =~= assets@);
    out
}

/// The configuration, as the query answers it.
pub fn query_config(config: &Config) -> (r: ConfigResponse)
    ensures
        r == (ConfigResponse {
            owner: config.owner,
            ust_arb_strategy: config.ust_vault_address,
            red_bank_addr: config.red_bank_addr,
            astroport_router: config.astroport_router,
            stable_denom: config.stable_denom,
            assets_supported: r.assets_supported,
        }),
        r.assets_supported@ == config.assets_supported@,
{
    ConfigResponse {
        owner: config.owner.clone(),
        ust_arb_strategy: config.ust_vault_address.clone(),
        red_bank_addr: config.red_bank_addr.clone(),
        astroport_router: config.astroport_router.clone(),
        stable_denom: config.stable_denom.clone(),
        assets_supported: copy_assets(&config.assets_supported),
    }
}

/// The state, as the query answers it.
pub fn query_state(state: &State) -> (r: StateResponse)
    ensures
        r == (StateResponse { total_liquidations: state.total_liquidations, total_ust_profit: state.total_ust_profit }),
{
    StateResponse { total_liquidations: state.total_liquidations, total_ust_profit: state.total_ust_profit }
}

/// Asks the NFT minter to reward `user_address` for a liquidation of `liquidated_amount`.
pub fn build_mint_nft_msg(nft_minter: String, user_address: String, liquidated_amount: Uint256) -> (m: CosmosMsg)
    ensures
        is_execute_no_funds(m, nft_minter),
        payload_of(m) == ExecutePayload::NftMinter(MinterExecuteMsg::MintNft { user_address, liquidated_amount }),
{
    execute_msg(nft_minter, ExecutePayload::NftMinter(MinterExecuteMsg::MintNft { user_address, liquidated_amount }))
}

} // verus!
