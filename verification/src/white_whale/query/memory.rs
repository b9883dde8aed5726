//! Raw queries of the memory contract's address book.
use vstd::prelude::*;

use crate::asset::AssetInfo;
use crate::error::ContractError;
use crate::white_whale::convert::{convert_to_asset, spec_asset_info_of};

verus! {

/// The storage prefix of a namespace: its length as two big-endian bytes, then the
/// namespace.
pub open spec fn length_prefixed(namespace: Seq<u8>) -> Seq<u8> {
    seq![(namespace.len() / 256) as u8, (namespace.len() % 256) as u8] + namespace
}

/// The storage prefix of a namespace (`to_length_prefixed`): its length as two big-endian
/// bytes, then the namespace. A namespace longer than 0xFFFF bytes has no such prefix.
pub fn to_length_prefixed(namespace: &[u8]) -> (r: Vec<u8>)
    requires
        namespace@.len() <= 0xFFFF,
    ensures
        r@ == length_prefixed(namespace@),
{
    let len = namespace.len();
    let head: [u8; 2] = [(len / 256) as u8, (len % 256) as u8];
    let h: &[u8] = &head;
    assert(h@ =~= seq![(len / 256) as u8, (len % 256) as u8]);
    concat(h, namespace)
}

/// The bytes of `namespace` followed by those of `key`.
pub fn concat(namespace: &[u8], key: &[u8]) -> (k: Vec<u8>)
    ensures
        k@ == namespace@ + key@,
{
    let mut k: Vec<u8> = Vec::new();
    let mut i: usize = 0;
    while i < namespace.len()
        invariant
            i <= namespace@.len(),
            k@ == namespace@.subrange(0, i as int),
        decreases namespace@.len() - i,
    {
        k.push(namespace[i]);
        i = i + 1;
        assert(k@ =~= namespace@.subrange(0, i as int));
    }
    let mut j: usize = 0;
    while j < key.len()
        invariant
            j <= key@.len(),
            k@ == namespace@ + key@.subrange(0, j as int),
        decreases key@.len() - j,
    {
        k.push(key[j]);
        j = j + 1;
        assert(k@ =~= namespace@ + key@.subrange(0, j as int));
    }
    assert(key@.subrange(0, key@.len() as int) =~= key@);
    k
}

/// The bytes `address_book`, the namespace of the memory contract's address book.
pub open spec fn address_book_namespace() -> Seq<u8> {
    seq![97u8, 100u8, 100u8, 114u8, 101u8, 115u8, 115u8, 95u8, 98u8, 111u8, 111u8, 107u8]
}

/// The raw storage key of the address-book entry `name`.
pub fn address_book_key(name: &[u8]) -> (k: Vec<u8>)
    ensures
        k@ == length_prefixed(address_book_namespace()) + name@,
{
    let namespace: [u8; 12] = [97, 100, 100, 114, 101, 115, 115, 95, 98, 111, 111, 107];
    let ns: &[u8] = &namespace;
    assert(ns@ =~= address_book_namespace());
    let prefix = to_length_prefixed(ns);
    concat(prefix.as_slice(), name)
}

/// Distinct names are stored under distinct keys, so reading one entry never reads
/// another's.
pub proof fn law_address_book_keys_distinct(a: Seq<u8>, b: Seq<u8>)
    requires
        a != b,
    ensures
        length_prefixed(address_book_namespace()) + a != length_prefixed(address_book_namespace()) + b,
{
    let p = length_prefixed(address_book_namespace());
    if p + a == p + b {
        assert((p + a).subrange(p.len() as int, (p + a).len() as int) =~= a);
        assert((p + b).subrange(p.len() as int, (p + b).len() as int) =~= b);
    }
}

/// The asset info of an address-book entry (`to_asset_info`); `address_valid` is the
/// chain's verdict on the entry as an address.
pub fn to_asset_info(address_or_denom: String, address_valid: bool) -> (r: Result<AssetInfo, ContractError>)
    ensures
        r == spec_asset_info_of(address_or_denom, address_valid),
{
    convert_to_asset(address_or_denom, address_valid)
}

} // verus!
