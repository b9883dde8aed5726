//! Fees as a share of an amount.
use vstd::prelude::*;

use crate::asset::{Asset, TaxInfo};
use crate::cosmos::CosmosMsg;
use crate::error::ContractError;
use crate::math::{DECIMAL_FRACTIONAL, Decimal, lemma_mul_decimal_le_amount, mul_decimal};
use crate::liquidation_helpers::astroport_helper::{is_asset_payment, tax_unknown};

verus! {

#[derive(Clone, Copy, Debug, PartialEq, Eq, Structural)]
pub struct Fee {
    pub share: Decimal,
}

impl Fee {
    /// The fee on `amount`: `amount * share`, rounded down.
    pub fn compute(&self, amount: u128) -> (r: u128)
        requires
            self.share.spec_value_times(amount as int) <= u128::MAX,
        ensures
            r == self.share.spec_value_times(amount as int),
    {
        mul_decimal(amount, self.share)
    }

    /// The message that pays `asset` to `recipient`.
    pub fn msg(&self, tax: &TaxInfo, asset: Asset, recipient: String) -> (r: Result<CosmosMsg, ContractError>)
        requires
            crate::asset::rate_ok(tax.rate),
        ensures
            r is Err <==> tax_unknown(asset, *tax),
            r is Err ==> r == Err::<CosmosMsg, ContractError>(ContractError::TaxQueryFailed),
            r matches Ok(m) ==> is_asset_payment(m, asset, *tax, recipient),
    {
        asset.into_msg(tax, recipient)
    }
}

/// A fee whose share is at most one never exceeds the amount it is taken from.
pub proof fn law_fee_at_most_amount(fee: Fee, amount: u128)
    requires
        fee.share.atomics <= DECIMAL_FRACTIONAL,
    ensures
        0 <= fee.share.spec_value_times(amount as int) <= amount,
{
    lemma_mul_decimal_le_amount(amount as int, fee.share);
}

/// The fees of a vault and where the war chest's share goes.
#[derive(Clone, Debug, PartialEq)]
pub struct VaultFee {
    pub flash_loan_fee: Fee,
    pub warchest_fee: Fee,
    pub warchest_addr: Vec<u8>,
}

} // verus!
