//! The assets that a vault holds, and how each is valued in the base asset.
use vstd::prelude::*;

use crate::asset::{Asset, AssetInfo, same_asset};
use crate::error::ContractError;
use crate::math::{DECIMAL_FRACTIONAL, Decimal, mul_decimal};
use crate::white_whale::query::terraswap::{pool_ratio, ratio_defined, spec_pool_ratio};
use crate::white_whale::terraswap::PoolResponse;

pub use crate::asset::get_identifier;

verus! {

/// An asset that the vault holds, and where its value in the base asset comes from.
#[derive(Clone, Debug, PartialEq)]
pub struct VaultAsset {
    pub asset: Asset,
    pub value_reference: Option<ValueRef>,
}

/// The source of an asset's value.
#[derive(Clone, Debug, PartialEq)]
pub enum ValueRef {
    /// A pair of the asset and the base asset.
    Pool { pair_address: String },
    /// A liquidity pool whose shares the asset is.
    Liquidity { pool_address: String },
    /// Another asset, as many times as the multiplier says, whose value counts instead.
    Proxy { proxy_asset: AssetInfo, multiplier: Decimal, proxy_pool: Option<String> },
}

/// The next step of a valuation: the value itself, or the source that must be consulted
/// for the holding.
#[derive(Clone, Debug, PartialEq)]
pub enum Valuation {
    /// The asset is the base asset: the holding is its value.
    Value(u128),
    /// The value comes from the asset's pair with the base asset (see `asset_value`).
    FromPool { pair_address: String },
    /// The holding is a share of this liquidity pool.
    FromLiquidity { pool_address: String, holding: u128 },
    /// The holding counts as the proxy asset.
    FromProxy { proxy_asset: AssetInfo, multiplier: Decimal, proxy_pool: Option<String>, holding: u128 },
}

/// The value in the first asset of a pool of `amount` of `info`: through the reverse of
/// the pool's ratio when `info` is the pool's first asset, else through the ratio.
pub open spec fn spec_asset_value(info: AssetInfo, amount: u128, pool: PoolResponse) -> int {
    let ratio = spec_pool_ratio(pool);
    if same_asset(info, pool.assets[0].info) {
        let rev = if ratio.atomics == 0 { 0 } else { (1_000_000_000_000_000_000_000_000_000_000_000_000int / ratio.atomics as int) };
        Decimal { atomics: rev as u128 }.spec_value_times(amount as int)
    } else {
        ratio.spec_value_times(amount as int)
    }
}

proof fn lemma_floor(x: int, d: int)
    requires
        x >= 0,
        d > 0,
    ensures
        0 <= x / d,
        (x / d) * d <= x,
        x < (x / d) * d + d,
{
    vstd::arithmetic::div_mod::lemma_fundamental_div_mod(x, d);
    vstd::arithmetic::div_mod::lemma_mod_bound(x, d);
    vstd::arithmetic::div_mod::lemma_div_pos_is_pos(x, d);
    assert(d * (x / d) == (x / d) * d) by (nonlinear_arith);
}

/// The value of the pool's first asset goes by the other reserve over its own: `amount` of
/// it is worth at least `amount` times `reserve_1 / reserve_0` (each quotient rounded down at
/// 18 decimals) and at most `amount * reserve_1 / (reserve_0 - reserve_1 / 10^18)`. The
/// pool's price, its first reserve over its second, must be at least 10^-18.
pub proof fn law_first_asset_valued_by_the_other_reserve(info: AssetInfo, amount: u128, pool: PoolResponse)
    requires
        same_asset(info, pool.assets[0].info),
        ratio_defined(pool),
        pool.assets[1].amount <= pool.assets[0].amount * DECIMAL_FRACTIONAL,
    ensures
        spec_asset_value(info, amount, pool) >= amount * (pool.assets[1].amount * (DECIMAL_FRACTIONAL as int)
            / (pool.assets[0].amount as int)) / (DECIMAL_FRACTIONAL as int),
        spec_asset_value(info, amount, pool) * (pool.assets[0].amount * DECIMAL_FRACTIONAL - pool.assets[1].amount)
            <= amount * DECIMAL_FRACTIONAL * pool.assets[1].amount,
{
    let a0 = pool.assets[0].amount as int;
    let a1 = pool.assets[1].amount as int;
    let f = DECIMAL_FRACTIONAL as int;
    let am = amount as int;
    assert(f * f == 1_000_000_000_000_000_000_000_000_000_000_000_000int);
    assert(a0 * f >= 0 && a1 * f >= 0 && am * f >= 0) by (nonlinear_arith)
        requires
            a0 >= 0,
            a1 >= 0,
            am >= 0,
            f > 0,
    ;
    let r = a0 * f / a1;
    lemma_floor(a0 * f, a1);
    assert(spec_pool_ratio(pool).atomics == r);
    assert(r >= 1) by (nonlinear_arith)
        requires
            r * a1 <= a0 * f,
            a0 * f < r * a1 + a1,
            a1 <= a0 * f,
            r >= 0,
            a1 > 0,
    ;
    let rev = f * f / r;
    lemma_floor(f * f, r);
    assert(rev <= f * f) by (nonlinear_arith)
        requires
            rev * r <= f * f,
            r >= 1,
            rev >= 0,
    ;
    assert(a0 >= 1) by (nonlinear_arith)
        requires
            a1 <= a0 * f,
            a1 >= 1,
            a0 >= 0,
            f > 0,
    ;
    assert(am * rev >= 0) by (nonlinear_arith)
        requires
            am >= 0,
            rev >= 0,
    ;
    let v = am * rev / f;
    lemma_floor(am * rev, f);
    assert(spec_asset_value(info, amount, pool) == v);
    // at least
    let p = a1 * f / a0;
    lemma_floor(a1 * f, a0);
    assert(p * r <= f * f) by (nonlinear_arith)
        requires
            p * a0 <= a1 * f,
            r * a1 <= a0 * f,
            p >= 0,
            r >= 0,
            a1 > 0,
            f > 0,
    ;
    assert(p <= rev) by (nonlinear_arith)
        requires
            p * r <= f * f,
            f * f < rev * r + r,
            r >= 1,
    ;
    assert(am * p <= am * rev) by (nonlinear_arith)
        requires
            p <= rev,
            am >= 0,
    ;
    vstd::arithmetic::div_mod::lemma_div_is_ordered(am * p, am * rev, f);
    // at most
    assert(v * r <= am * f) by (nonlinear_arith)
        requires
            v * f <= am * rev,
            rev * r <= f * f,
            v >= 0,
            r >= 1,
            am >= 0,
            f > 0,
    ;
    assert(v * (a0 * f - a1) <= am * f * a1) by (nonlinear_arith)
        requires
            v * r <= am * f,
            a0 * f < r * a1 + a1,
            v >= 0,
            a1 > 0,
    ;
}

/// The value of another asset of the pool goes by the first reserve over the second:
/// `amount` of it is worth `amount` times `reserve_0 / reserve_1` rounded down at 18
/// decimals, and so at most `amount * reserve_0 / reserve_1`.
pub proof fn law_other_asset_valued_by_the_first_reserve(info: AssetInfo, amount: u128, pool: PoolResponse)
    requires
        !same_asset(info, pool.assets[0].info),
        ratio_defined(pool),
    ensures
        spec_asset_value(info, amount, pool) == amount * (pool.assets[0].amount * (DECIMAL_FRACTIONAL as int)
            / (pool.assets[1].amount as int)) / (DECIMAL_FRACTIONAL as int),
        spec_asset_value(info, amount, pool) * pool.assets[1].amount <= amount * pool.assets[0].amount,
{
    let a0 = pool.assets[0].amount as int;
    let a1 = pool.assets[1].amount as int;
    let f = DECIMAL_FRACTIONAL as int;
    let am = amount as int;
    assert(a0 * f >= 0) by (nonlinear_arith)
        requires
            a0 >= 0,
            f > 0,
    ;
    let r = a0 * f / a1;
    lemma_floor(a0 * f, a1);
    assert(am * r >= 0) by (nonlinear_arith)
        requires
            am >= 0,
            r >= 0,
    ;
    let v = am * r / f;
    lemma_floor(am * r, f);
    assert(spec_asset_value(info, amount, pool) == v);
    assert(v * a1 <= am * a0) by (nonlinear_arith)
        requires
            v * f <= am * r,
            r * a1 <= a0 * f,
            v >= 0,
            am >= 0,
            a1 > 0,
            f > 0,
    ;
}

/// A pool with which the value of `amount` of `info` is defined and fits in 128 bits.
pub open spec fn asset_value_defined(info: AssetInfo, amount: u128, pool: PoolResponse) -> bool {
    &&& ratio_defined(pool)
    &&& spec_asset_value(info, amount, pool) <= u128::MAX
}

impl VaultAsset {
    /// Records `holding` as the amount held and says where the value comes from. The
    /// holding is the amount given by the caller, or else the balance queried for the
    /// contract. A liquidity share must be a token.
    pub fn value(&mut self, holding: u128) -> (r: Result<Valuation, ContractError>)
        ensures
            final(self).asset.amount == holding,
            final(self).asset.info == old(self).asset.info,
            final(self).value_reference == old(self).value_reference,
            match old(self).value_reference {
                None => r == Ok::<Valuation, ContractError>(Valuation::Value(holding)),
                Some(ValueRef::Pool { pair_address }) => r == Ok::<Valuation, ContractError>(Valuation::FromPool { pair_address }),
                Some(ValueRef::Liquidity { pool_address }) => if old(self).asset.info is Token {
                    r == Ok::<Valuation, ContractError>(Valuation::FromLiquidity { pool_address, holding })
                } else {
                    r == Err::<Valuation, ContractError>(ContractError::NativeLpToken)
                },
                Some(ValueRef::Proxy { proxy_asset, multiplier, proxy_pool }) => r == Ok::<Valuation, ContractError>(
                    Valuation::FromProxy { proxy_asset, multiplier, proxy_pool, holding },
                ),
            },
    {
        self.asset.amount = holding;
        match &self.value_reference {
            None => Ok(Valuation::Value(holding)),
            Some(ValueRef::Pool { pair_address }) => Ok(Valuation::FromPool { pair_address: pair_address.clone() }),
            Some(ValueRef::Liquidity { pool_address }) => {
                if let AssetInfo::Token { .. } = &self.asset.info {
                    Ok(Valuation::FromLiquidity { pool_address: pool_address.clone(), holding })
                } else {
                    Err(ContractError::NativeLpToken)
                }
            },
            Some(ValueRef::Proxy { proxy_asset, multiplier, proxy_pool }) => Ok(
                Valuation::FromProxy {
                    proxy_asset: proxy_asset.duplicate(),
                    multiplier: *multiplier,
                    proxy_pool: match proxy_pool {
                        Some(p) => Some(p.clone()),
                        None => None,
                    },
                    holding,
                },
            ),
        }
    }

    /// The value of the held amount in the other asset of the pair `pool`.
    pub fn asset_value(&self, pool: &PoolResponse) -> (r: u128)
        requires
            asset_value_defined(self.asset.info, self.asset.amount, *pool),
        ensures
            r == spec_asset_value(self.asset.info, self.asset.amount, *pool),
    {
        let ratio = pool_ratio(pool);
        if self.asset.info.equal(&pool.assets[0].info) {
            mul_decimal(self.asset.amount, ratio.reverse())
        } else {
            mul_decimal(self.asset.amount, ratio)
        }
    }
}

/// Values an asset as another one: the proxy asset, a multiplier, and the pool that
/// prices it.
#[derive(Clone, Debug, PartialEq)]
pub struct Proxy {
    proxy_asset: AssetInfo,
    multiplier: Decimal,
    proxy_pool: Option<String>,
}

impl Proxy {
    pub closed spec fn spec_proxy_asset(&self) -> AssetInfo {
        self.proxy_asset
    }

    pub closed spec fn spec_multiplier(&self) -> Decimal {
        self.multiplier
    }

    pub closed spec fn spec_proxy_pool(&self) -> Option<String> {
        self.proxy_pool
    }

    pub fn new(multiplier: Decimal, proxy_asset: AssetInfo, proxy_pool: Option<String>) -> (r: Result<Proxy, ContractError>)
        ensures
            r matches Ok(p) && p.spec_proxy_asset() == proxy_asset && p.spec_multiplier() == multiplier
                && p.spec_proxy_pool() == proxy_pool,
    {
        Ok(Proxy { proxy_asset, multiplier, proxy_pool })
    }
}

} // verus!
