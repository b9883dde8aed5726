//! Native denominations.
use vstd::prelude::*;

verus! {

pub const UST_DENOM: &'static str = "uusd";

pub const LUNA_DENOM: &'static str = "uluna";

/// Whether the text names a native denomination: it is at most five bytes long.
pub open spec fn is_denom_text(s: Seq<char>) -> bool {
    (vstd::utf8::encode_utf8(s).len() as usize) <= 5
}

/// Whether `s` names a native denomination: every denomination is at most five bytes
/// long, and every contract address is longer.
pub fn is_denom(s: &str) -> (b: bool)
    ensures
        b == is_denom_text(s@),
{
    return if s.len() > 5 { false } else { true };
}

/// Every text of at most five bytes, such as `uluna` or `uusd`, names a native
/// denomination, and no longer text does.
pub proof fn law_denominations_are_the_short_texts(s: Seq<char>)
    ensures
        vstd::utf8::encode_utf8(s).len() <= 5 ==> is_denom_text(s),
        5 < vstd::utf8::encode_utf8(s).len() <= u32::MAX ==> !is_denom_text(s),
{
}

} // verus!
