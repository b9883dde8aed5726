//! Flash loans from the UST vault.
use vstd::prelude::*;

use crate::asset::{Asset, AssetInfo};
use crate::cosmos::{CosmosMsg, ExecutePayload, execute_msg, is_execute_no_funds, payload_of};
use crate::math::Uint256;

verus! {

/// A loan request: the asset to lend, and the message to execute with it.
#[derive(Debug, PartialEq)]
pub struct FlashLoanPayload {
    pub requested_asset: Asset,
    pub callback: Box<CosmosMsg>,
}

#[derive(Debug, PartialEq)]
pub enum ExecuteMsg {
    FlashLoan { payload: FlashLoanPayload },
}

/// `m` asks the vault at `vault` for a loan of `amount` of `denom` and to run `callback`
/// with it.
pub open spec fn is_flash_loan(m: CosmosMsg, vault: String, denom: String, amount: u128, callback: CosmosMsg) -> bool {
    &&& is_execute_no_funds(m, vault)
    &&& payload_of(m) == ExecutePayload::FlashLoan(ExecuteMsg::FlashLoan {
        payload: FlashLoanPayload {
            requested_asset: Asset { info: AssetInfo::NativeToken { denom }, amount },
            callback: Box::new(callback),
        },
    })
}

/// Asks the vault for a flash loan of `amount` of the stable denomination, to be used by
/// `callback`. The amount must fit in the 128 bits of a loan request.
pub fn build_flash_loan_msg(
    ust_vault_contract: String,
    stable_denom: String,
    amount: Uint256,
    callback: CosmosMsg,
) -> (m: CosmosMsg)
    requires
        amount@ <= u128::MAX,
    ensures
        is_flash_loan(m, ust_vault_contract, stable_denom, amount@ as u128, callback),
{
    execute_msg(
        ust_vault_contract,
        ExecutePayload::FlashLoan(ExecuteMsg::FlashLoan {
            payload: FlashLoanPayload {
                requested_asset: Asset { info: AssetInfo::NativeToken { denom: stable_denom }, amount: amount.to_u128() },
                callback: Box::new(callback),
            },
        }),
    )
}

} // verus!
