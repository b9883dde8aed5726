use vstd::prelude::*;
use vstd::string::StringExecFns;

verus! {

/// One in fixed-point: the number of atomics of `Decimal::one()`.
pub const DECIMAL_FRACTIONAL: u128 = 1_000_000_000_000_000_000u128;

/// A fixed-point decimal with 18 fractional digits; the value is `atomics / 10^18`.
#[derive(Clone, Copy, Debug, PartialEq, Eq, Structural)]
pub struct Decimal {
    pub atomics: u128,
}

/// The floor of `value * numerator / denominator`.
pub open spec fn ratio_of(value: int, numerator: int, denominator: int) -> int {
    value * numerator / denominator
}

/// `cosmwasm_std::Uint128::multiply_ratio`: `value * numerator / denominator` rounded down,
/// computed through a 256-bit intermediate. The crate panics when the denominator is zero
/// or when the quotient does not fit in 128 bits; `requires` leaves both cases out.
#[verifier::external_body]
pub(crate) fn multiply_ratio(value: u128, numerator: u128, denominator: u128) -> (r: u128)
    requires
        denominator != 0,
        ratio_of(value as int, numerator as int, denominator as int) <= u128::MAX,
    ensures
        r == ratio_of(value as int, numerator as int, denominator as int),
{
    cosmwasm_std::Uint128::new(value).multiply_ratio(numerator, denominator).u128()
}

impl Decimal {
    pub open spec fn spec_value_times(self, amount: int) -> int {
        amount * self.atomics / (DECIMAL_FRACTIONAL as int)
    }

    pub fn zero() -> (d: Decimal)
        ensures
            d.atomics == 0,
    {
        Decimal { atomics: 0 }
    }

    pub fn one() -> (d: Decimal)
        ensures
            d.atomics == DECIMAL_FRACTIONAL,
    {
        Decimal { atomics: DECIMAL_FRACTIONAL }
    }

    /// `x` percent.
    pub fn percent(x: u64) -> (d: Decimal)
        ensures
            d.atomics == x * 10_000_000_000_000_000,
    {
        Decimal { atomics: (x as u128) * 10_000_000_000_000_000u128 }
    }

    pub fn is_zero(&self) -> (b: bool)
        ensures
            b == (self.atomics == 0),
    {
        self.atomics == 0
    }

    /// `numerator / denominator`, rounded down to 18 fractional digits.
    pub fn from_ratio(numerator: u128, denominator: u128) -> (d: Decimal)
        requires
            denominator != 0,
            ratio_of(numerator as int, DECIMAL_FRACTIONAL as int, denominator as int) <= u128::MAX,
        ensures
            d.atomics == ratio_of(numerator as int, DECIMAL_FRACTIONAL as int, denominator as int),
    {
        Decimal { atomics: multiply_ratio(numerator, DECIMAL_FRACTIONAL, denominator) }
    }

    /// `1 / self`, and zero for zero.
    pub fn reverse(&self) -> (d: Decimal)
        ensures
            self.atomics == 0 ==> d.atomics == 0,
            self.atomics != 0 ==> d.atomics == ratio_of(
                DECIMAL_FRACTIONAL as int,
                DECIMAL_FRACTIONAL as int,
                self.atomics as int,
            ),
    {
        if self.atomics == 0 {
            Decimal::zero()
        } else {
            proof {
                lemma_ratio_le_scaled(DECIMAL_FRACTIONAL as int, self.atomics as int);
            }
            Decimal { atomics: multiply_ratio(DECIMAL_FRACTIONAL, DECIMAL_FRACTIONAL, self.atomics) }
        }
    }
}

/// `10^36 / d` stays below `u128::MAX` for every positive `d`.
proof fn lemma_ratio_le_scaled(f: int, d: int)
    requires
        f == DECIMAL_FRACTIONAL as int,
        d >= 1,
    ensures
        ratio_of(f, f, d) <= u128::MAX,
{
    assert(f * f / d <= f * f) by (nonlinear_arith)
        requires
            d >= 1,
            f >= 0,
    ;
    assert(f * f == 1_000_000_000_000_000_000_000_000_000_000_000_000int);
}

/// `amount * decimal` for an integer amount, rounded down (`Uint128 * Decimal`).
pub fn mul_decimal(amount: u128, d: Decimal) -> (r: u128)
    requires
        d.spec_value_times(amount as int) <= u128::MAX,
    ensures
        r == d.spec_value_times(amount as int),
{
    if amount == 0 || d.atomics == 0 {
        proof {
            assert(amount * d.atomics == 0) by (nonlinear_arith)
                requires
                    amount == 0 || d.atomics == 0,
            ;
        }
        0
    } else {
        multiply_ratio(amount, d.atomics, DECIMAL_FRACTIONAL)
    }
}

/// `amount * decimal` never exceeds the amount when the decimal is at most one.
pub proof fn lemma_mul_decimal_le_amount(amount: int, d: Decimal)
    requires
        amount >= 0,
        d.atomics <= DECIMAL_FRACTIONAL,
    ensures
        0 <= d.spec_value_times(amount) <= amount,
{
    let f = DECIMAL_FRACTIONAL as int;
    assert(0 <= amount * d.atomics <= amount * f) by (nonlinear_arith)
        requires
            amount >= 0,
            0 <= d.atomics <= f,
    ;
    assert(amount * f / f == amount) by (nonlinear_arith)
        requires
            f > 0,
    ;
    assert(amount * d.atomics / f <= amount * f / f) by (nonlinear_arith)
        requires
            amount * d.atomics <= amount * f,
            f > 0,
    ;
    assert(0 <= amount * d.atomics / f) by (nonlinear_arith)
        requires
            amount * d.atomics >= 0,
            f > 0,
    ;
}


/// 2^128, the weight of the high half of a `Uint256`.
pub open spec fn two_pow_128() -> int {
    0x1_0000_0000_0000_0000_0000_0000_0000_0000int
}

/// 2^256, one more than the largest `Uint256`.
pub open spec fn two_pow_256() -> int {
    two_pow_128() * two_pow_128()
}

/// An unsigned 256-bit integer held as two 128-bit halves; its value is `hi * 2^128 + lo`.
#[derive(Clone, Copy, Debug, PartialEq, Eq, Structural)]
pub struct Uint256 {
    pub lo: u128,
    pub hi: u128,
}

/// The 256-bit integer of a 128-bit value.
pub open spec fn u256(v: u128) -> Uint256 {
    Uint256 { lo: v, hi: 0 }
}

impl View for Uint256 {
    type V = nat;

    open spec fn view(&self) -> nat {
        (self.hi * two_pow_128() + self.lo) as nat
    }
}

impl Uint256 {
    pub fn zero() -> (r: Uint256)
        ensures
            r@ == 0,
            r == u256(0),
    {
        Uint256 { lo: 0, hi: 0 }
    }

    /// The 256-bit value of a 128-bit integer.
    pub fn from_u128(v: u128) -> (r: Uint256)
        ensures
            r@ == v,
            r == u256(v),
    {
        Uint256 { lo: v, hi: 0 }
    }

    pub fn is_zero(&self) -> (b: bool)
        ensures
            b == (self@ == 0),
    {
        self.lo == 0 && self.hi == 0
    }

    /// Whether the value fits in 128 bits.
    pub fn fits_u128(&self) -> (b: bool)
        ensures
            b == (self@ <= u128::MAX),
    {
        self.hi == 0
    }

    /// The value as a 128-bit integer; it must fit.
    pub fn to_u128(&self) -> (r: u128)
        requires
            self@ <= u128::MAX,
        ensures
            r == self@,
    {
        self.lo
    }

    /// `self < other` on the values.
    pub fn lt(&self, other: &Uint256) -> (b: bool)
        ensures
            b == (self@ < other@),
    {
        self.hi < other.hi || (self.hi == other.hi && self.lo < other.lo)
    }

    /// The sum, which must stay below 2^256.
    pub fn add(&self, other: &Uint256) -> (r: Uint256)
        requires
            self@ + other@ < two_pow_256(),
        ensures
            r@ == self@ + other@,
    {
        let m: u128 = u128::MAX;
        if self.lo <= m - other.lo {
            Uint256 { lo: self.lo + other.lo, hi: self.hi + other.hi }
        } else {
            let lo: u128 = self.lo - (m - other.lo) - 1;
            Uint256 { lo, hi: self.hi + other.hi + 1 }
        }
    }

    /// The difference; `other` must not be larger.
    pub fn sub(&self, other: &Uint256) -> (r: Uint256)
        requires
            other@ <= self@,
        ensures
            r@ == self@ - other@,
    {
        if self.lo >= other.lo {
            Uint256 { lo: self.lo - other.lo, hi: self.hi - other.hi }
        } else {
            let m: u128 = u128::MAX;
            let lo: u128 = m - (other.lo - self.lo) + 1;
            Uint256 { lo, hi: self.hi - other.hi - 1 }
        }
    }
}


/// The character of a decimal digit.
pub open spec fn digit_char(d: int) -> char {
    if d == 0 {
        '0'
    } else if d == 1 {
        '1'
    } else if d == 2 {
        '2'
    } else if d == 3 {
        '3'
    } else if d == 4 {
        '4'
    } else if d == 5 {
        '5'
    } else if d == 6 {
        '6'
    } else if d == 7 {
        '7'
    } else if d == 8 {
        '8'
    } else {
        '9'
    }
}

/// The decimal notation of `n`, without leading zeros.
pub open spec fn decimal(n: nat) -> Seq<char>
    decreases n,
{
    if n < 10 {
        seq![digit_char(n as int)]
    } else {
        decimal(n / 10) + seq![digit_char((n % 10) as int)]
    }
}

/// Decimal notation is never empty.
proof fn lemma_decimal_nonempty(n: nat)
    ensures
        decimal(n).len() >= 1,
    decreases n,
{
    if n >= 10 {
        lemma_decimal_nonempty(n / 10);
    }
}

/// Distinct numbers have distinct decimal notations.
pub proof fn law_decimal_injective(a: nat, b: nat)
    requires
        decimal(a) == decimal(b),
    ensures
        a == b,
    decreases a,
{
    if a < 10 && b < 10 {
        assert(decimal(a)[0] == digit_char(a as int));
        assert(decimal(b)[0] == digit_char(b as int));
    } else if a < 10 {
        lemma_decimal_nonempty(b / 10);
        assert(decimal(b).len() >= 2);
    } else if b < 10 {
        lemma_decimal_nonempty(a / 10);
        assert(decimal(a).len() >= 2);
    } else {
        let da = decimal(a);
        let db = decimal(b);
        assert(da.last() == digit_char((a % 10) as int));
        assert(db.last() == digit_char((b % 10) as int));
        assert(a % 10 == b % 10);
        assert(da.drop_last() =~= decimal(a / 10));
        assert(db.drop_last() =~= decimal(b / 10));
        law_decimal_injective(a / 10, b / 10);
    }
}

/// The one-character string of a decimal digit.
fn digit_str(d: u8) -> (s: &'static str)
    requires
        d < 10,
    ensures
        s@ == seq![digit_char(d as int)],
{
    match d {
        0 => {
            proof {
                reveal_strlit("0");
            }
            "0"
        },
        1 => {
            proof {
                reveal_strlit("1");
            }
            "1"
        },
        2 => {
            proof {
                reveal_strlit("2");
            }
            "2"
        },
        3 => {
            proof {
                reveal_strlit("3");
            }
            "3"
        },
        4 => {
            proof {
                reveal_strlit("4");
            }
            "4"
        },
        5 => {
            proof {
                reveal_strlit("5");
            }
            "5"
        },
        6 => {
            proof {
                reveal_strlit("6");
            }
            "6"
        },
        7 => {
            proof {
                reveal_strlit("7");
            }
            "7"
        },
        8 => {
            proof {
                reveal_strlit("8");
            }
            "8"
        },
        _ => {
            proof {
                reveal_strlit("9");
            }
            "9"
        },
    }
}

impl Uint256 {
    /// The quotient and the remainder of the division by ten.
    fn div_rem_10(&self) -> (r: (Uint256, u8))
        ensures
            self@ == r.0@ * 10 + r.1,
            r.1 < 10,
    {
        let b: u128 = 0x1_0000_0000_0000_0000u128;
        let q_hi = self.hi / 10;
        let r1 = self.hi % 10;
        let lo_h = self.lo / b;
        let lo_l = self.lo % b;
        assert(lo_h < b) by (nonlinear_arith)
            requires
                lo_h == self.lo / b,
                b == 0x1_0000_0000_0000_0000u128,
                self.lo <= u128::MAX,
        ;
        let t = r1 * b + lo_h;
        let q_mid = t / 10;
        let r2 = t % 10;
        let u = r2 * b + lo_l;
        let q_low = u / 10;
        let r3 = u % 10;
        let q_lo = q_mid * b + q_low;
        assert(self.lo == lo_h * b + lo_l) by (nonlinear_arith)
            requires
                lo_h == self.lo / b,
                lo_l == self.lo % b,
                b > 0,
        ;
        assert(two_pow_128() == b * b);
        assert(self@ == (q_hi * two_pow_128() + q_lo) * 10 + r3);
        (Uint256 { lo: q_lo, hi: q_hi }, r3 as u8)
    }

    /// Appends the decimal notation of `v` to `out`.
    fn write_decimal(v: Uint256, out: &mut String)
        ensures
            final(out)@ == old(out)@ + decimal(v@),
        decreases v@,
    {
        let (q, d) = v.div_rem_10();
        if !q.is_zero() {
            Uint256::write_decimal(q, out);
        }
        out.append(digit_str(d));
        proof {
            assert(v@ / 10 == q@);
            assert(v@ % 10 == d);
        }
    }

    /// The decimal notation of the value.
    pub fn to_string(&self) -> (s: String)
        ensures
            s@ == decimal(self@),
    {
        let mut s = String::new();
        Uint256::write_decimal(*self, &mut s);
        assert(s@ =~= decimal(self@));
        s
    }
}

/// The decimal notation of a 64-bit integer.
pub fn u64_to_string(x: u64) -> (s: String)
    ensures
        s@ == decimal(x as nat),
{
    Uint256::from_u128(x as u128).to_string()
}

/// The decimal notation of a 128-bit integer.
pub fn u128_to_string(x: u128) -> (s: String)
    ensures
        s@ == decimal(x as nat),
{
    Uint256::from_u128(x).to_string()
}

/// A fixed-point decimal with 18 fractional digits over 256 bits; the value is
/// `atomics / 10^18`.
#[derive(Clone, Copy, Debug, PartialEq, Eq, Structural)]
pub struct Decimal256 {
    pub atomics: Uint256,
}

} // verus!
