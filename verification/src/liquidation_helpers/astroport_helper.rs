//! Astroport router messages, and the asset operations that the helpers share.
use vstd::prelude::*;

use crate::asset::{Asset, AssetInfo, Coin, TaxInfo, cap_of, coin_tax, deduct_tax, compute_tax, lemma_tax_le_amount, luna_denom, rate_ok};
use crate::cosmos::{
    CosmosMsg, ExecutePayload, bank_send_coin, cw20_send_msg, cw20_transfer_msg, execute_msg_with_coin,
    hook_of, is_bank_send, is_cw20_send, is_cw20_transfer, is_execute, payload_of,
};
use crate::error::ContractError;

verus! {

/// One step of an Astroport router swap.
#[derive(Clone, Debug, PartialEq)]
pub enum SwapOperation {
    NativeSwap { offer_denom: String, ask_denom: String },
    AstroSwap { offer_asset_info: AssetInfo, ask_asset_info: AssetInfo },
}

/// What the Astroport router executes.
#[derive(Clone, Debug, PartialEq)]
pub enum AstroportExecuteMsg {
    /// Runs several swap operations in a row.
    ExecuteSwapOperations { operations: Vec<SwapOperation>, minimum_receive: Option<u128>, to: Option<String> },
    /// Swaps all offered tokens for the asked token (internal).
    ExecuteSwapOperation { operation: SwapOperation, to: Option<String> },
    /// Checks that the swap returned at least `minimum_receive` (internal).
    AssertMinimumReceive { asset_info: AssetInfo, prev_balance: u128, minimum_receive: u128, receiver: String },
}

/// The hook of CW20 tokens sent to the Astroport router.
#[derive(Clone, Debug, PartialEq)]
pub enum AstroportCw20HookMsg {
    ExecuteSwapOperations { operations: Vec<SwapOperation>, minimum_receive: Option<u128>, to: Option<String> },
}

/// The queries of the Astroport router.
#[derive(Clone, Debug, PartialEq)]
pub enum AstroportQueryMsg {
    Config,
    SimulateSwapOperations { offer_amount: u128, operations: Vec<SwapOperation> },
}

/// The operations of a router message that swaps with no minimum and pays the sender.
pub open spec fn swap_operations_of(p: ExecutePayload) -> Option<Seq<SwapOperation>> {
    match p {
        ExecutePayload::Astroport(
            AstroportExecuteMsg::ExecuteSwapOperations { operations, minimum_receive: None, to: None },
        ) => Some(operations@),
        _ => None,
    }
}

/// `m` asks the router to run `op` on the native coins sent with it.
pub open spec fn is_router_native_swap(m: CosmosMsg, router: String, offered: Coin, op: SwapOperation) -> bool {
    &&& is_execute(m, router, seq![offered])
    &&& swap_operations_of(payload_of(m)) == Some(seq![op])
}

/// `m` sends `amount` CW20 tokens to the router to run `op` on them.
pub open spec fn is_router_cw20_swap(m: CosmosMsg, router: String, token: String, amount: u128, op: SwapOperation) -> bool {
    &&& is_cw20_send(m, token, router, amount)
    &&& swap_operations_of(hook_of(m)) == Some(seq![op])
}

fn swap_operations_msg(op: SwapOperation) -> (p: ExecutePayload)
    ensures
        swap_operations_of(p) == Some(seq![op]),
{
    let mut operations: Vec<SwapOperation> = Vec::new();
    operations.push(op);
    ExecutePayload::Astroport(AstroportExecuteMsg::ExecuteSwapOperations { operations, minimum_receive: None, to: None })
}

/// Sells `sell_amount` of a CW20 token for `native_denom` through the router.
pub fn trade_cw20_for_native_on_astroport(
    astroport_router: String,
    cw20_token_addr: String,
    sell_amount: u128,
    native_denom: String,
) -> (m: CosmosMsg)
    ensures
        is_router_cw20_swap(
            m,
            astroport_router,
            cw20_token_addr,
            sell_amount,
            SwapOperation::AstroSwap {
                offer_asset_info: AssetInfo::Token { contract_addr: cw20_token_addr },
                ask_asset_info: AssetInfo::NativeToken { denom: native_denom },
            },
        ),
{
    let swap_operation = SwapOperation::AstroSwap {
        offer_asset_info: AssetInfo::Token { contract_addr: cw20_token_addr.clone() },
        ask_asset_info: AssetInfo::NativeToken { denom: native_denom },
    };
    cw20_send_msg(astroport_router, cw20_token_addr, sell_amount, swap_operations_msg(swap_operation))
}

/// The coin that reaches the router when `amount` of `denom` is sent: the amount less tax.
pub open spec fn taxed_coin(tax: TaxInfo, denom: String, amount: u128) -> Coin {
    Coin { denom, amount: (amount - coin_tax(denom@, amount as int, tax)->0) as u128 }
}

/// A taxed transfer never takes more than it moves: the tax is at most the amount sent,
/// and what arrives plus the tax is exactly what was sent.
pub proof fn law_tax_and_delivery(tax: TaxInfo, denom: String, amount: u128)
    requires
        coin_tax(denom@, amount as int, tax) is Some,
    ensures
        0 <= coin_tax(denom@, amount as int, tax)->0 <= amount,
        taxed_coin(tax, denom, amount).amount + coin_tax(denom@, amount as int, tax)->0 == amount,
        taxed_coin(tax, denom, amount).denom == denom,
{
    if denom@ != luna_denom() {
        lemma_tax_le_amount(amount as int, tax.rate, cap_of(tax.caps@, denom@)->0 as int);
    }
}

/// Buys a CW20 token with `sell_amount` of `native_denom`, less tax, through the router.
pub fn trade_native_for_cw20_on_astroport(
    tax: &TaxInfo,
    astroport_router: String,
    native_denom: String,
    sell_amount: u128,
    cw20_token_addr: String,
) -> (r: Result<CosmosMsg, ContractError>)
    requires
        rate_ok(tax.rate),
    ensures
        r is Err <==> coin_tax(native_denom@, sell_amount as int, *tax) is None,
        r is Err ==> r == Err::<CosmosMsg, ContractError>(ContractError::TaxQueryFailed),
        r matches Ok(m) ==> is_router_native_swap(
            m,
            astroport_router,
            taxed_coin(*tax, native_denom, sell_amount),
            SwapOperation::AstroSwap {
                offer_asset_info: AssetInfo::NativeToken { denom: native_denom },
                ask_asset_info: AssetInfo::Token { contract_addr: cw20_token_addr },
            },
        ),
{
    let swap_operation = SwapOperation::AstroSwap {
        offer_asset_info: AssetInfo::NativeToken { denom: native_denom.clone() },
        ask_asset_info: AssetInfo::Token { contract_addr: cw20_token_addr },
    };
    let coin = match deduct_tax(tax, &Coin { denom: native_denom, amount: sell_amount }) {
        Some(c) => c,
        None => return Err(ContractError::TaxQueryFailed),
    };
    Ok(execute_msg_with_coin(astroport_router, swap_operations_msg(swap_operation), coin))
}

/// Swaps `sell_amount` of `sell_denom`, less tax, for `ask_denom` through the router.
pub fn trade_native_for_native_on_astroport(
    tax: &TaxInfo,
    astroport_router: String,
    sell_denom: String,
    sell_amount: u128,
    ask_denom: String,
) -> (r: Result<CosmosMsg, ContractError>)
    requires
        rate_ok(tax.rate),
    ensures
        r is Err <==> coin_tax(sell_denom@, sell_amount as int, *tax) is None,
        r is Err ==> r == Err::<CosmosMsg, ContractError>(ContractError::TaxQueryFailed),
        r matches Ok(m) ==> is_router_native_swap(
            m,
            astroport_router,
            taxed_coin(*tax, sell_denom, sell_amount),
            SwapOperation::NativeSwap { offer_denom: sell_denom, ask_denom },
        ),
{
    let swap_operation = SwapOperation::NativeSwap { offer_denom: sell_denom.clone(), ask_denom };
    let coin = match deduct_tax(tax, &Coin { denom: sell_denom, amount: sell_amount }) {
        Some(c) => c,
        None => return Err(ContractError::TaxQueryFailed),
    };
    Ok(execute_msg_with_coin(astroport_router, swap_operations_msg(swap_operation), coin))
}

/// `m` pays `asset` to `recipient`: a CW20 transfer of a token, or a bank transfer of a
/// native coin less tax.
pub open spec fn is_asset_payment(m: CosmosMsg, asset: Asset, tax: TaxInfo, recipient: String) -> bool {
    match asset.info {
        AssetInfo::Token { contract_addr } => is_cw20_transfer(m, contract_addr, recipient, asset.amount),
        AssetInfo::NativeToken { denom } => is_bank_send(m, recipient, seq![taxed_coin(tax, denom, asset.amount)]),
    }
}

/// Whether a native asset's tax cannot be computed.
pub open spec fn tax_unknown(asset: Asset, tax: TaxInfo) -> bool {
    asset.info matches AssetInfo::NativeToken { denom } && coin_tax(denom@, asset.amount as int, tax) is None
}

impl Asset {
    pub fn is_native_token(&self) -> (b: bool)
        ensures
            b == (self.info is NativeToken),
    {
        self.info.is_native_token()
    }

    /// The tax on the asset: nothing on tokens and Luna, else the stability tax.
    pub fn compute_tax(&self, tax: &TaxInfo) -> (r: Result<u128, ContractError>)
        requires
            rate_ok(tax.rate),
        ensures
            self.info is Token ==> r == Ok::<u128, ContractError>(0),
            self.info matches AssetInfo::NativeToken { denom } ==> match coin_tax(denom@, self.amount as int, *tax) {
                Some(t) => r == Ok::<u128, ContractError>(t as u128),
                None => r == Err::<u128, ContractError>(ContractError::TaxQueryFailed),
            },
    {
        let amount = self.amount;
        if let AssetInfo::NativeToken { denom } = &self.info {
            match compute_tax(tax, denom, amount) {
                Some(t) => Ok(t),
                None => Err(ContractError::TaxQueryFailed),
            }
        } else {
            Ok(0)
        }
    }

    /// The native coin that arrives once tax is taken out; tokens carry no tax to deduct.
    pub fn deduct_tax(&self, tax: &TaxInfo) -> (r: Result<Coin, ContractError>)
        requires
            rate_ok(tax.rate),
        ensures
            self.info is Token ==> r == Err::<Coin, ContractError>(ContractError::CannotDeductTaxFromToken),
            self.info matches AssetInfo::NativeToken { denom } ==> match coin_tax(denom@, self.amount as int, *tax) {
                Some(t) => r == Ok::<Coin, ContractError>(taxed_coin(*tax, denom, self.amount)),
                None => r == Err::<Coin, ContractError>(ContractError::TaxQueryFailed),
            },
    {
        if let AssetInfo::NativeToken { denom } = &self.info {
            match deduct_tax(tax, &Coin { denom: denom.clone(), amount: self.amount }) {
                Some(c) => Ok(c),
                None => Err(ContractError::TaxQueryFailed),
            }
        } else {
            Err(ContractError::CannotDeductTaxFromToken)
        }
    }

    /// The message that pays the asset to `recipient`.
    pub fn into_msg(self, tax: &TaxInfo, recipient: String) -> (r: Result<CosmosMsg, ContractError>)
        requires
            rate_ok(tax.rate),
        ensures
            r is Err <==> tax_unknown(self, *tax),
            r is Err ==> r == Err::<CosmosMsg, ContractError>(ContractError::TaxQueryFailed),
            r matches Ok(m) ==> is_asset_payment(m, self, *tax, recipient),
    {
        let amount = self.amount;
        match &self.info {
            AssetInfo::Token { contract_addr } => Ok(cw20_transfer_msg(contract_addr.clone(), recipient, amount)),
            AssetInfo::NativeToken { .. } => {
                let coin = self.deduct_tax(tax)?;
                Ok(bank_send_coin(recipient, coin))
            },
        }
    }

    /// Checks that the native coins sent with a message match the asset: the coin of the
    /// asset's denomination, if any was sent, carries exactly its amount, and an asset of
    /// zero needs no coin. Tokens need no check.
    pub fn assert_sent_native_token_balance(&self, funds: &Vec<Coin>) -> (r: Result<(), ContractError>)
        ensures
            r is Ok <==> sent_matches(*self, funds@),
            r is Err ==> r == Err::<(), ContractError>(ContractError::NativeTokenBalanceMismatch),
    {
        if let AssetInfo::NativeToken { denom } = &self.info {
            match find_coin(funds, denom) {
                Some(coin_amount) => {
                    if self.amount == coin_amount {
                        Ok(())
                    } else {
                        Err(ContractError::NativeTokenBalanceMismatch)
                    }
                },
                None => {
                    if self.amount == 0 {
                        Ok(())
                    } else {
                        Err(ContractError::NativeTokenBalanceMismatch)
                    }
                },
            }
        } else {
            Ok(())
        }
    }
}

/// The amount of the first coin of `denom` among `coins`.
pub open spec fn first_coin(coins: Seq<Coin>, denom: Seq<char>) -> Option<u128>
    decreases coins.len(),
{
    if coins.len() == 0 {
        None
    } else if coins[0].denom@ == denom {
        Some(coins[0].amount)
    } else {
        first_coin(coins.drop_first(), denom)
    }
}

/// The native coins sent agree with the asset.
pub open spec fn sent_matches(asset: Asset, funds: Seq<Coin>) -> bool {
    match asset.info {
        AssetInfo::NativeToken { denom } => match first_coin(funds, denom@) {
            Some(a) => a == asset.amount,
            None => asset.amount == 0,
        },
        AssetInfo::Token { .. } => true,
    }
}

/// The amount of the first coin of `denom` that `coins` holds.
pub fn find_coin(coins: &Vec<Coin>, denom: &String) -> (r: Option<u128>)
    ensures
        r == first_coin(coins@, denom@),
{
    let mut i: usize = 0;
    assert(coins@.subrange(0, coins@.len() as int) =~= coins@);
    while i < coins.len()
        invariant
            i <= coins.len(),
            first_coin(coins@, denom@) == first_coin(coins@.subrange(i as int, coins@.len() as int), denom@),
        decreases coins.len() - i,
    {
        let ghost rest = coins@.subrange(i as int, coins@.len() as int);
        assert(rest.drop_first() =~= coins@.subrange(i + 1, coins@.len() as int));
        if coins[i].denom == *denom {
            return Some(coins[i].amount);
        }
        i = i + 1;
    }
    None
}

} // verus!
