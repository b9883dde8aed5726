//! How the war chest values the assets it holds, in the base asset.
use vstd::prelude::*;

use crate::asset::{Asset, AssetInfo, identifier_of};
use crate::error::ContractError;
use crate::math::{Decimal, mul_decimal, multiply_ratio, ratio_of};
use crate::white_whale::query::terraswap::pool_ratio;
use crate::white_whale::terraswap::PoolResponse;
use crate::white_whale::treasury::vault_assets::{asset_value_defined, spec_asset_value};

verus! {

/// An asset that the war chest holds, and where its value in the base asset comes from.
#[derive(Clone, Debug, PartialEq)]
pub struct VaultAsset {
    pub asset: Asset,
    pub value_reference: Option<ValueRef>,
}

/// The source of an asset's value.
#[derive(Clone, Debug, PartialEq)]
pub enum ValueRef {
    /// A pair of the asset and the base asset.
    Pool { address: String },
    /// A liquidity pool whose shares the asset is.
    Liquidity { pool_address: String, proxy: Proxy },
    /// Another asset, as many times as the multiplier says, whose value counts instead.
    Proxy { proxy_asset: AssetInfo, multiplier: Decimal, proxy_pool: Option<String> },
}

/// The next step of a valuation.
#[derive(Clone, Debug, PartialEq)]
pub enum Valuation {
    /// The value itself.
    Value(u128),
    /// The value comes from the pair at `address` (see `asset_value`).
    FromPool { address: String },
    /// `holdings` are shares of the liquidity pool at `pool_address` (see `lp_value`).
    FromLiquidity { pool_address: String, holdings: u128 },
}

impl VaultAsset {
    /// Says where the value of the held amount comes from. With no value reference the
    /// asset is the base asset, and its amount is its value; a liquidity share must be a
    /// token; proxy valuation is not done, and values the asset at zero.
    pub fn value(&self) -> (r: Result<Valuation, ContractError>)
        ensures
            match self.value_reference {
                None => r == Ok::<Valuation, ContractError>(Valuation::Value(self.asset.amount)),
                Some(ValueRef::Pool { address }) => r == Ok::<Valuation, ContractError>(Valuation::FromPool { address }),
                Some(ValueRef::Liquidity { pool_address, proxy: _ }) => if self.asset.info is Token {
                    r == Ok::<Valuation, ContractError>(
                        Valuation::FromLiquidity { pool_address, holdings: self.asset.amount },
                    )
                } else {
                    r == Err::<Valuation, ContractError>(ContractError::NativeLpToken)
                },
                Some(ValueRef::Proxy { .. }) => r == Ok::<Valuation, ContractError>(Valuation::Value(0)),
            },
    {
        let holdings = self.asset.amount;
        match &self.value_reference {
            None => Ok(Valuation::Value(holdings)),
            Some(ValueRef::Pool { address }) => Ok(Valuation::FromPool { address: address.clone() }),
            Some(ValueRef::Liquidity { pool_address, proxy: _ }) => {
                if let AssetInfo::Token { .. } = &self.asset.info {
                    Ok(Valuation::FromLiquidity { pool_address: pool_address.clone(), holdings })
                } else {
                    Err(ContractError::NativeLpToken)
                }
            },
            Some(ValueRef::Proxy { .. }) => Ok(Valuation::Value(0)),
        }
    }

    /// The value of the held amount in the other asset of the pair `pool`: through the
    /// reverse of the pool's ratio when the asset is the pool's first asset, else through
    /// the ratio.
    pub fn asset_value(&self, pool: &PoolResponse) -> (r: u128)
        requires
            asset_value_defined(self.asset.info, self.asset.amount, *pool),
        ensures
            r == spec_asset_value(self.asset.info, self.asset.amount, *pool),
    {
        let ratio = pool_ratio(pool);
        if self.asset.info.equal(&pool.assets[0].info) {
            mul_decimal(self.asset.amount, ratio.reverse())
        } else {
            mul_decimal(self.asset.amount, ratio)
        }
    }
}

/// The inputs on which `lp_value` neither divides by zero nor overflows.
pub open spec fn lp_value_defined(pool: PoolResponse, holdings: u128) -> bool {
    &&& pool.total_share != 0
    &&& ratio_of(pool.assets[0].amount as int, holdings as int, pool.total_share as int) <= u128::MAX
    &&& ratio_of(pool.assets[1].amount as int, holdings as int, pool.total_share as int) <= u128::MAX
}

/// The part of the pool's `k`-th reserve that `holdings` liquidity shares own: the reserve
/// times `holdings / total_share`, rounded down.
pub open spec fn owned_reserve(pool: PoolResponse, holdings: u128, k: int) -> int {
    ratio_of(pool.assets[k].amount as int, holdings as int, pool.total_share as int)
}

/// Splits `holdings` liquidity shares of `pool` into the two pooled assets: the shares own
/// the fraction `holdings / total_share` of the pool, so each of the two vault assets,
/// looked up by the identifiers of the pool's assets, is set to hold that fraction of the
/// pool's reserve of it. `lp_holdings_value` sums their values. `asset_1` and `asset_2`
/// are the stored vault assets, `None` when absent.
pub fn lp_value(
    pool: &PoolResponse,
    holdings: u128,
    asset_1: Option<VaultAsset>,
    asset_2: Option<VaultAsset>,
) -> (r: Result<(VaultAsset, VaultAsset), ContractError>)
    requires
        lp_value_defined(*pool, holdings),
    ensures
        asset_1 is None || asset_2 is None ==> r == Err::<(VaultAsset, VaultAsset), ContractError>(ContractError::NotFound),
        asset_1 is Some && asset_2 is Some ==> (r matches Ok((v1, v2)) && v1 == VaultAsset {
            asset: Asset { amount: owned_reserve(*pool, holdings, 0) as u128, ..asset_1->0.asset },
            ..asset_1->0
        } && v2 == VaultAsset {
            asset: Asset { amount: owned_reserve(*pool, holdings, 1) as u128, ..asset_2->0.asset },
            ..asset_2->0
        }),
{
    let mut v1 = match asset_1 {
        Some(v) => v,
        None => return Err(ContractError::NotFound),
    };
    let mut v2 = match asset_2 {
        Some(v) => v,
        None => return Err(ContractError::NotFound),
    };
    v1.asset.amount = multiply_ratio(pool.assets[0].amount, holdings, pool.total_share);
    v2.asset.amount = multiply_ratio(pool.assets[1].amount, holdings, pool.total_share);
    Ok((v1, v2))
}

/// What the chain answered for the last step of an asset's valuation: the pool of the pair
/// that prices it, the value of a liquidity holding (itself valued through `lp_value`), or
/// nothing, where no query was made or the query failed.
#[derive(Clone, Debug, PartialEq)]
pub enum StepAnswer {
    Pool(PoolResponse),
    Liquidity(u128),
    Nothing,
}

/// The value of what `asset` holds, in the base asset, given the chain's answer to the
/// valuation step that its value reference asks for.
pub open spec fn valued(asset: VaultAsset, answer: StepAnswer) -> Result<int, ContractError> {
    match asset.value_reference {
        None => Ok(asset.asset.amount as int),
        Some(ValueRef::Pool { .. }) => match answer {
            StepAnswer::Pool(p) => Ok(spec_asset_value(asset.asset.info, asset.asset.amount, p)),
            _ => Err(ContractError::QueryFailed),
        },
        Some(ValueRef::Liquidity { .. }) => if asset.asset.info is Token {
            match answer {
                StepAnswer::Liquidity(x) => Ok(x as int),
                _ => Err(ContractError::QueryFailed),
            }
        } else {
            Err(ContractError::NativeLpToken)
        },
        Some(ValueRef::Proxy { .. }) => Ok(0),
    }
}

/// The answers with which the value of a pair-priced asset is defined and fits in 128 bits.
pub open spec fn valued_defined(asset: VaultAsset, answer: StepAnswer) -> bool {
    asset.value_reference matches Some(ValueRef::Pool { .. }) && answer matches StepAnswer::Pool(p) ==> asset_value_defined(
        asset.asset.info,
        asset.asset.amount,
        p,
    )
}

impl VaultAsset {
    /// The value of what the asset holds, in the base asset: its amount for the base
    /// asset, its value in the pair that prices it, the value of a liquidity holding, or
    /// zero for a proxy. `answer` is the chain's answer to the step that the value
    /// reference asks for.
    pub fn valued_amount(&self, answer: &StepAnswer) -> (r: Result<u128, ContractError>)
        requires
            valued_defined(*self, *answer),
        ensures
            match valued(*self, *answer) {
                Ok(x) => r == Ok::<u128, ContractError>(x as u128),
                Err(e) => r == Err::<u128, ContractError>(e),
            },
    {
        match self.value()? {
            Valuation::Value(x) => Ok(x),
            Valuation::FromPool { .. } => match answer {
                StepAnswer::Pool(p) => Ok(self.asset_value(p)),
                _ => Err(ContractError::QueryFailed),
            },
            Valuation::FromLiquidity { .. } => match answer {
                StepAnswer::Liquidity(x) => Ok(*x),
                _ => Err(ContractError::QueryFailed),
            },
        }
    }
}

/// `asset` set to hold the part of the pool's `k`-th reserve that `holdings` shares own.
pub open spec fn reweighted(asset: VaultAsset, pool: PoolResponse, holdings: u128, k: int) -> VaultAsset {
    VaultAsset { asset: Asset { amount: owned_reserve(pool, holdings, k) as u128, ..asset.asset }, ..asset }
}

/// The inputs on which `lp_holdings_value` neither divides by zero nor overflows.
pub open spec fn lp_holdings_defined(
    pool: PoolResponse,
    holdings: u128,
    asset_1: VaultAsset,
    asset_2: VaultAsset,
    answer_1: StepAnswer,
    answer_2: StepAnswer,
) -> bool {
    let w1 = reweighted(asset_1, pool, holdings, 0);
    let w2 = reweighted(asset_2, pool, holdings, 1);
    &&& lp_value_defined(pool, holdings)
    &&& valued_defined(w1, answer_1)
    &&& valued_defined(w2, answer_2)
    &&& (valued(w1, answer_1) matches Ok(x) && valued(w2, answer_2) matches Ok(y) ==> x + y <= u128::MAX)
}

/// The value of `holdings` liquidity shares of `pool` in the base asset (`lp_value`): the
/// two vault assets of the pool, looked up by the identifiers of its assets, are set to
/// hold what the shares own of each reserve, and the value of the holdings is the sum of
/// their values. `asset_1` and `asset_2` are the stored vault assets, `None` when absent;
/// `answer_1` and `answer_2` are the chain's answers to their valuation steps.
pub fn lp_holdings_value(
    pool: &PoolResponse,
    holdings: u128,
    asset_1: Option<VaultAsset>,
    asset_2: Option<VaultAsset>,
    answer_1: &StepAnswer,
    answer_2: &StepAnswer,
) -> (r: Result<u128, ContractError>)
    requires
        lp_value_defined(*pool, holdings),
        asset_1 matches Some(a1) && asset_2 matches Some(a2) ==> lp_holdings_defined(
            *pool,
            holdings,
            a1,
            a2,
            *answer_1,
            *answer_2,
        ),
    ensures
        asset_1 is None || asset_2 is None ==> r == Err::<u128, ContractError>(ContractError::NotFound),
        asset_1 matches Some(a1) && asset_2 matches Some(a2) ==> match (
            valued(reweighted(a1, *pool, holdings, 0), *answer_1),
            valued(reweighted(a2, *pool, holdings, 1), *answer_2),
        ) {
            (Err(e), _) => r == Err::<u128, ContractError>(e),
            (Ok(_), Err(e)) => r == Err::<u128, ContractError>(e),
            (Ok(x), Ok(y)) => r == Ok::<u128, ContractError>((x + y) as u128),
        },
{
    let (v1, v2) = lp_value(pool, holdings, asset_1, asset_2)?;
    let x = v1.valued_amount(answer_1)?;
    let y = v2.valued_amount(answer_2)?;
    Ok(x + y)
}

/// Values an asset as another one: the proxy asset, a multiplier, and the pool that
/// prices it.
#[derive(Clone, Debug, PartialEq)]
pub struct Proxy {
    proxy_asset: AssetInfo,
    multiplier: Decimal,
    proxy_pool: Option<String>,
}

impl Proxy {
    pub closed spec fn spec_proxy_asset(&self) -> AssetInfo {
        self.proxy_asset
    }

    pub closed spec fn spec_multiplier(&self) -> Decimal {
        self.multiplier
    }

    pub closed spec fn spec_proxy_pool(&self) -> Option<String> {
        self.proxy_pool
    }

    /// A proxy; a token's address is stored in its canonical form, so it must be valid.
    /// `asset_addr_valid` is the chain's verdict on a token's address.
    pub fn new(
        asset: AssetInfo,
        multiplier: Decimal,
        proxy_pool: Option<String>,
        asset_addr_valid: bool,
    ) -> (r: Result<Proxy, ContractError>)
        ensures
            asset is Token && !asset_addr_valid ==> r == Err::<Proxy, ContractError>(ContractError::InvalidAddress),
            !(asset is Token && !asset_addr_valid) ==> (r matches Ok(p) && p.spec_proxy_asset() == asset
                && p.spec_multiplier() == multiplier && p.spec_proxy_pool() == proxy_pool),
    {
        if let AssetInfo::Token { .. } = &asset {
            if !asset_addr_valid {
                return Err(ContractError::InvalidAddress);
            }
        }
        Ok(Proxy { proxy_asset: asset, multiplier, proxy_pool })
    }
}

/// The identifier of an asset: its denomination or its contract address.
pub fn get_identifier(asset_info: AssetInfo) -> (r: String)
    ensures
        r == identifier_of(asset_info),
{
    match asset_info {
        AssetInfo::NativeToken { denom } => denom,
        AssetInfo::Token { contract_addr } => contract_addr,
    }
}

} // verus!
