//! Helpers of the liquidation contracts: coin amounts and payment messages.
use vstd::prelude::*;

use crate::asset::{Coin, TaxInfo, coin_tax, deduct_tax, rate_ok};
use crate::cosmos::{CosmosMsg, bank_send_coin, is_bank_send};
use crate::error::ContractError;
use crate::liquidation_helpers::astroport_helper::{find_coin, first_coin, taxed_coin};
use crate::math::{Uint256, u256};

verus! {

/// The amount of the first coin of `denom`, or zero.
pub open spec fn coin_amount(coins: Seq<Coin>, denom: Seq<char>) -> u128 {
    match first_coin(coins, denom) {
        Some(a) => a,
        None => 0,
    }
}

/// The amount of a denomination among coins is that of its first coin, and zero when no
/// coin has it.
pub proof fn lemma_coin_amount_is_first_coin(coins: Seq<Coin>, denom: Seq<char>, i: int)
    requires
        0 <= i < coins.len(),
        coins[i].denom@ == denom,
        forall|j: int| 0 <= j < i ==> (#[trigger] coins[j]).denom@ != denom,
    ensures
        coin_amount(coins, denom) == coins[i].amount,
    decreases i,
{
    if i > 0 {
        assert forall|j: int| 0 <= j < i - 1 implies (#[trigger] coins.drop_first()[j]).denom@ != denom by {
            assert(coins.drop_first()[j] == coins[j + 1]);
        }
        assert(coins.drop_first()[i - 1] == coins[i]);
        lemma_coin_amount_is_first_coin(coins.drop_first(), denom, i - 1);
    }
}

pub proof fn lemma_coin_amount_absent(coins: Seq<Coin>, denom: Seq<char>)
    requires
        forall|j: int| 0 <= j < coins.len() ==> (#[trigger] coins[j]).denom@ != denom,
    ensures
        coin_amount(coins, denom) == 0,
    decreases coins.len(),
{
    if coins.len() > 0 {
        assert(coins[0].denom@ != denom);
        assert forall|j: int| 0 <= j < coins.len() - 1 implies (#[trigger] coins.drop_first()[j]).denom@ != denom by {
            assert(coins.drop_first()[j] == coins[j + 1]);
        }
        lemma_coin_amount_absent(coins.drop_first(), denom);
    }
}

/// The amount of `denom` among the coins sent (`get_denom_amount_from_coins`): that of the
/// first coin of the denomination, or zero.
pub fn get_denom_amount_from_coins(coins: &Vec<Coin>, denom: &String) -> (r: Uint256)
    ensures
        r == u256(coin_amount(coins@, denom@)),
        r@ == coin_amount(coins@, denom@),
{
    match find_coin(coins, denom) {
        Some(a) => Uint256::from_u128(a),
        None => Uint256::zero(),
    }
}

/// Pays `amount` of `denom`, less tax, to `recipient` (`build_send_native_asset_msg`).
/// The amount must fit in the 128 bits of a coin.
pub fn build_send_native_asset_msg(
    tax: &TaxInfo,
    recipient: String,
    denom: &String,
    amount: Uint256,
) -> (r: Result<CosmosMsg, ContractError>)
    requires
        rate_ok(tax.rate),
        amount@ <= u128::MAX,
    ensures
        r is Err <==> coin_tax(denom@, amount@ as int, *tax) is None,
        r is Err ==> r == Err::<CosmosMsg, ContractError>(ContractError::TaxQueryFailed),
        r matches Ok(m) ==> is_bank_send(m, recipient, seq![taxed_coin(*tax, *denom, amount@ as u128)]),
{
    let coin = match deduct_tax(tax, &Coin { denom: denom.clone(), amount: amount.to_u128() }) {
        Some(c) => c,
        None => return Err(ContractError::TaxQueryFailed),
    };
    Ok(bank_send_coin(recipient, coin))
}

} // verus!
