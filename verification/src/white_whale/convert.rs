//! Turning an identifier into an asset info.
use vstd::prelude::*;

use crate::asset::AssetInfo;
use crate::error::ContractError;
use crate::white_whale::denom::{is_denom, is_denom_text};

verus! {

/// The asset info that an identifier stands for: a native token when the identifier is a
/// denomination, else a CW20 token, whose address must be valid. `address_valid` is the
/// chain's verdict on the identifier as an address.
pub open spec fn spec_asset_info_of(identifier: String, address_valid: bool) -> Result<AssetInfo, ContractError> {
    if is_denom_text(identifier@) {
        Ok(AssetInfo::NativeToken { denom: identifier })
    } else if address_valid {
        Ok(AssetInfo::Token { contract_addr: identifier })
    } else {
        Err(ContractError::InvalidAddress)
    }
}

/// An identifier of at most five bytes, such as `uluna`, is the native coin of that
/// denomination, whatever the chain says of it as an address; a longer one is the token of
/// that address when the address is valid, and refused otherwise.
pub proof fn law_short_identifiers_are_native_coins(identifier: String, address_valid: bool)
    ensures
        vstd::utf8::encode_utf8(identifier@).len() <= 5 ==> spec_asset_info_of(identifier, address_valid) == Ok::<
            AssetInfo,
            ContractError,
        >(AssetInfo::NativeToken { denom: identifier }),
        5 < vstd::utf8::encode_utf8(identifier@).len() <= u32::MAX ==> spec_asset_info_of(identifier, address_valid) == (
        if address_valid {
            Ok::<AssetInfo, ContractError>(AssetInfo::Token { contract_addr: identifier })
        } else {
            Err::<AssetInfo, ContractError>(ContractError::InvalidAddress)
        }),
{
    crate::white_whale::denom::law_denominations_are_the_short_texts(identifier@);
}

/// The asset info of an identifier (`convert_to_asset`).
pub fn convert_to_asset(identifier: String, address_valid: bool) -> (r: Result<AssetInfo, ContractError>)
    ensures
        r == spec_asset_info_of(identifier, address_valid),
{
    return if is_denom(identifier.as_str()) {
        Ok(AssetInfo::NativeToken { denom: identifier })
    } else {
        if !address_valid {
            return Err(ContractError::InvalidAddress);
        }
        Ok(AssetInfo::Token { contract_addr: identifier })
    };
}

} // verus!
