//! Assets, coins and the Terra stability tax.
use vstd::prelude::*;

use crate::math::{Decimal, DECIMAL_FRACTIONAL, Uint256, decimal, multiply_ratio, mul_decimal, ratio_of};
use vstd::string::StringExecFns;

verus! {

broadcast use vstd::string::to_string_from_display_ensures_for_str;

/// The native Luna denomination, on which Terra levies no tax.
pub open spec fn luna_denom() -> Seq<char> {
    "uluna"@
}

/// `"uluna"` as an owned string.
pub fn luna_denom_string() -> (s: String)
    ensures
        s@ == luna_denom(),
{
    "uluna".to_string()
}

/// The UST denomination.
pub fn ust_denom_string() -> (s: String)
    ensures
        s@ == "uusd"@,
{
    "uusd".to_string()
}

#[derive(Clone, Debug, PartialEq)]
pub struct Coin {
    pub denom: String,
    pub amount: u128,
}

impl Coin {
    /// A copy with the same denomination and amount.
    pub fn duplicate(&self) -> (r: Coin)
        ensures
            r == *self,
    {
        Coin { denom: self.denom.clone(), amount: self.amount }
    }
}

/// A native denomination or a CW20 token contract.
#[derive(Clone, Debug, PartialEq)]
pub enum AssetInfo {
    Token { contract_addr: String },
    NativeToken { denom: String },
}

/// Two asset infos name the same asset: the same kind and the same identifier.
pub open spec fn same_asset(a: AssetInfo, b: AssetInfo) -> bool {
    match (a, b) {
        (AssetInfo::Token { contract_addr: x }, AssetInfo::Token { contract_addr: y }) => x@ == y@,
        (AssetInfo::NativeToken { denom: x }, AssetInfo::NativeToken { denom: y }) => x@ == y@,
        _ => false,
    }
}

/// The denomination or contract address that identifies an asset.
pub open spec fn identifier_of(a: AssetInfo) -> String {
    match a {
        AssetInfo::Token { contract_addr } => contract_addr,
        AssetInfo::NativeToken { denom } => denom,
    }
}

impl AssetInfo {
    pub fn duplicate(&self) -> (r: AssetInfo)
        ensures
            r == *self,
    {
        match self {
            AssetInfo::Token { contract_addr } => AssetInfo::Token { contract_addr: contract_addr.clone() },
            AssetInfo::NativeToken { denom } => AssetInfo::NativeToken { denom: denom.clone() },
        }
    }

    pub fn is_native_token(&self) -> (b: bool)
        ensures
            b == (*self is NativeToken),
    {
        match self {
            AssetInfo::NativeToken { .. } => true,
            AssetInfo::Token { .. } => false,
        }
    }

    /// Whether `asset` names the same asset as `self`.
    pub fn equal(&self, asset: &AssetInfo) -> (b: bool)
        ensures
            b == same_asset(*self, *asset),
    {
        match self {
            AssetInfo::Token { contract_addr } => {
                let self_contract_addr = contract_addr;
                match asset {
                    AssetInfo::Token { contract_addr } => *self_contract_addr == *contract_addr,
                    AssetInfo::NativeToken { .. } => false,
                }
            },
            AssetInfo::NativeToken { denom } => {
                let self_denom = denom;
                match asset {
                    AssetInfo::Token { .. } => false,
                    AssetInfo::NativeToken { denom } => *self_denom == *denom,
                }
            },
        }
    }

    /// The bytes of the identifier.
    pub fn as_bytes(&self) -> (b: &[u8])
        ensures
            b@ == vstd::utf8::encode_utf8(identifier_of(*self)@),
    {
        match self {
            AssetInfo::NativeToken { denom } => denom.as_str().as_bytes(),
            AssetInfo::Token { contract_addr } => contract_addr.as_str().as_bytes(),
        }
    }
}

impl AssetInfo {
    /// The asset's text: its denomination or its contract address.
    pub fn to_string(&self) -> (s: String)
        ensures
            s == identifier_of(*self),
    {
        get_identifier(self).clone()
    }
}

/// The identifier of an asset: its denomination or its contract address.
pub fn get_identifier(asset_info: &AssetInfo) -> (r: &String)
    ensures
        *r == identifier_of(*asset_info),
{
    match asset_info {
        AssetInfo::NativeToken { denom } => denom,
        AssetInfo::Token { contract_addr } => contract_addr,
    }
}

#[derive(Clone, Debug, PartialEq)]
pub struct Asset {
    pub info: AssetInfo,
    pub amount: u128,
}

/// The tax cap of one denomination.
#[derive(Clone, Debug, PartialEq)]
pub struct TaxCap {
    pub denom: String,
    pub cap: u128,
}

/// The chain's stability tax: one rate, and a cap for each denomination that was asked.
#[derive(Clone, Debug, PartialEq)]
pub struct TaxInfo {
    pub rate: Decimal,
    pub caps: Vec<TaxCap>,
}

/// The cap that `caps` records first for `denom`.
pub open spec fn cap_of(caps: Seq<TaxCap>, denom: Seq<char>) -> Option<u128>
    decreases caps.len(),
{
    if caps.len() == 0 {
        None
    } else if caps[0].denom@ == denom {
        Some(caps[0].cap)
    } else {
        cap_of(caps.drop_first(), denom)
    }
}

/// The rates the chain can hold: `10^18 * rate + 10^18` fits in 128 bits.
pub open spec fn rate_ok(rate: Decimal) -> bool {
    rate.atomics <= u128::MAX - DECIMAL_FRACTIONAL
}

/// What remains of `amount` once a tax at `rate` is taken out of it:
/// `amount * 10^18 / (10^18 * rate + 10^18)`.
pub open spec fn untaxed_part(amount: int, rate: Decimal) -> int {
    ratio_of(amount, DECIMAL_FRACTIONAL as int, rate.atomics + DECIMAL_FRACTIONAL as int)
}

/// The tax on `amount` of a taxed denomination: the part of `amount` above its untaxed
/// part, at most the cap.
pub open spec fn tax_amount(amount: int, rate: Decimal, cap: int) -> int {
    let t = amount - untaxed_part(amount, rate);
    if t < cap { t } else { cap }
}

/// The tax on a coin: nothing on Luna, else `tax_amount` with the denomination's cap.
pub open spec fn coin_tax(denom: Seq<char>, amount: int, tax: TaxInfo) -> Option<int> {
    if denom == luna_denom() {
        Some(0)
    } else {
        match cap_of(tax.caps@, denom) {
            Some(cap) => Some(tax_amount(amount, tax.rate, cap as int)),
            None => None,
        }
    }
}

proof fn lemma_untaxed_le(amount: int, rate: Decimal)
    requires
        amount >= 0,
    ensures
        0 <= untaxed_part(amount, rate) <= amount,
{
    let f = DECIMAL_FRACTIONAL as int;
    let d = rate.atomics + f;
    assert(amount * f <= amount * d) by (nonlinear_arith)
        requires
            amount >= 0,
            d >= f,
    ;
    assert(amount * f / d <= amount * d / d) by (nonlinear_arith)
        requires
            amount * f <= amount * d,
            d > 0,
    ;
    assert(amount * d / d == amount) by (nonlinear_arith)
        requires
            d > 0,
    ;
    assert(0 <= amount * f / d) by (nonlinear_arith)
        requires
            amount >= 0,
            f > 0,
            d > 0,
    ;
}

/// The tax never exceeds the taxed amount.
pub proof fn lemma_tax_le_amount(amount: int, rate: Decimal, cap: int)
    requires
        amount >= 0,
        cap >= 0,
    ensures
        0 <= tax_amount(amount, rate, cap) <= amount,
{
    lemma_untaxed_le(amount, rate);
}

/// The first recorded cap of a denomination.
pub fn find_tax_cap(caps: &Vec<TaxCap>, denom: &String) -> (r: Option<u128>)
    ensures
        r == cap_of(caps@, denom@),
{
    let mut i: usize = 0;
    assert(caps@.subrange(0, caps@.len() as int) =~= caps@);
    while i < caps.len()
        invariant
            i <= caps.len(),
            cap_of(caps@, denom@) == cap_of(caps@.subrange(i as int, caps@.len() as int), denom@),
        decreases caps.len() - i,
    {
        let ghost rest = caps@.subrange(i as int, caps@.len() as int);
        assert(rest.drop_first() =~= caps@.subrange(i + 1, caps@.len() as int));
        if caps[i].denom == *denom {
            return Some(caps[i].cap);
        }
        i = i + 1;
    }
    None
}

/// The tax the chain takes from a transfer of `amount` of `denom` (`compute_tax`):
/// nothing on Luna; else the part of `amount` above `amount / (1 + rate)`, at most the
/// denomination's cap. It fails as the cap query fails when no cap is known.
pub fn compute_tax(tax: &TaxInfo, denom: &String, amount: u128) -> (r: Option<u128>)
    requires
        rate_ok(tax.rate),
    ensures
        r matches Some(t) ==> coin_tax(denom@, amount as int, *tax) == Some(t as int),
        r is None <==> coin_tax(denom@, amount as int, *tax) is None,
{
    let luna = luna_denom_string();
    if *denom == luna {
        return Some(0);
    }
    match find_tax_cap(&tax.caps, denom) {
        None => None,
        Some(cap) => {
            proof {
                lemma_untaxed_le(amount as int, tax.rate);
            }
            let scaled_rate = mul_decimal(DECIMAL_FRACTIONAL, tax.rate);
            assert(scaled_rate == tax.rate.atomics) by (nonlinear_arith)
                requires
                    scaled_rate == DECIMAL_FRACTIONAL as int * tax.rate.atomics / (DECIMAL_FRACTIONAL as int),
            ;
            let kept = multiply_ratio(amount, DECIMAL_FRACTIONAL, scaled_rate + DECIMAL_FRACTIONAL);
            let t = amount - kept;
            if t < cap {
                Some(t)
            } else {
                Some(cap)
            }
        },
    }
}

/// The coin that arrives once the tax is taken out (`deduct_tax`).
pub fn deduct_tax(tax: &TaxInfo, coin: &Coin) -> (r: Option<Coin>)
    requires
        rate_ok(tax.rate),
    ensures
        r is None <==> coin_tax(coin.denom@, coin.amount as int, *tax) is None,
        r matches Some(c) ==> c.denom == coin.denom && c.amount == coin.amount - coin_tax(
            coin.denom@,
            coin.amount as int,
            *tax,
        )->0,
{
    match compute_tax(tax, &coin.denom, coin.amount) {
        None => None,
        Some(t) => {
            proof {
                if coin.denom@ != luna_denom() {
                    let cap = cap_of(tax.caps@, coin.denom@)->0;
                    lemma_tax_le_amount(coin.amount as int, tax.rate, cap as int);
                }
            }
            Some(Coin { denom: coin.denom.clone(), amount: coin.amount - t })
        },
    }
}

impl Asset {
    /// The asset's text: the amount in decimal, then the asset's identifier.
    pub fn to_string(&self) -> (s: String)
        ensures
            s@ == decimal(self.amount as nat) + identifier_of(self.info)@,
    {
        let mut s = Uint256::from_u128(self.amount).to_string();
        s.append(get_identifier(&self.info).as_str());
        s
    }
}

} // verus!
