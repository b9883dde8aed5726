//! Messages of the liquidation NFT minter.
use vstd::prelude::*;

use crate::liquidation_helpers::nft::Metadata;
use crate::math::Uint256;

verus! {

#[derive(Clone, Debug, PartialEq)]
pub struct InstantiateMsg {
    pub owner: String,
    pub cw721_code_id: u64,
}

#[derive(Clone, Debug, PartialEq)]
pub struct UpdateOwner {
    pub owner: String,
}

#[derive(Clone, Debug, PartialEq)]
pub enum ExecuteMsg {
    UpdateOwner { owner: String },
    AddLiquidator { new_liquidator: String, metadata: Metadata, symbol: String, token_uri: String },
    UpdateLiquidator {
        cur_liquidator: String,
        new_liquidator: Option<String>,
        metadata: Option<Metadata>,
        token_uri: Option<String>,
    },
    MintNft { user_address: String, liquidated_amount: Uint256 },
}

#[derive(Clone, Copy, Debug, PartialEq, Eq, Structural)]
pub enum QueryMsg {
    Config,
}

#[derive(Clone, Debug, PartialEq)]
pub struct ConfigResponse {
    pub owner: String,
    pub whitewhale_liquidators: Vec<LiquidationHelpersInfo>,
}

/// A liquidator contract and the NFT collection that rewards its liquidations.
#[derive(Clone, Debug, PartialEq)]
pub struct LiquidationHelpersInfo {
    pub liquidator_contract: String,
    pub nft_contract_addr: String,
    pub total_minted: u64,
    pub metadata: Metadata,
    pub token_uri: String,
}

} // verus!
