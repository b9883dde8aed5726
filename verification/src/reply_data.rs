//! The data that the chain hands back with the reply to a contract instantiation: a
//! protobuf-encoded `MsgInstantiateContractResponse`, whose field 1 is the new contract's
//! address (a string) and field 2 the data that the new contract returned (bytes).
use vstd::prelude::*;
use vstd::utf8::{decode_utf8, valid_utf8};

verus! {

/// The varint that starts at `pos`, read from its `i`-th byte on with the groups read so far
/// in `acc`: each byte gives its low seven bits, least significant group first, until a
/// byte below 0x80; at most ten bytes, and bits beyond 64 are dropped. With its value comes
/// the position after it.
pub open spec fn varint_from(b: Seq<u8>, pos: int, i: nat, acc: u64) -> Option<(u64, int)>
    decreases 10 - i,
{
    if i >= 10 || pos < 0 || pos + i >= b.len() {
        None
    } else {
        let byte = b[pos + i];
        let next = acc | (((byte & 0x7f) as u64) << ((i * 7) as u64));
        if byte < 0x80 {
            Some((next, pos + i + 1))
        } else {
            varint_from(b, pos, i + 1, next)
        }
    }
}

pub open spec fn varint_at(b: Seq<u8>, pos: int) -> Option<(u64, int)> {
    varint_from(b, pos, 0, 0)
}

/// The field tag at `pos`: its field number, its wire type and the position after it. The
/// tag is the varint's low 32 bits; a wire type above 5 or a field number 0 is no tag.
pub open spec fn tag_at(b: Seq<u8>, pos: int) -> Option<(u32, u32, int)> {
    match varint_at(b, pos) {
        None => None,
        Some((v, n)) => {
            let t = v as u32;
            if t & 7 > 5 || t >> 3u32 == 0 {
                None
            } else {
                Some((t >> 3u32, t & 7, n))
            }
        },
    }
}

/// The length-delimited value at `pos`: a varint length (its low 32 bits), then that many
/// bytes, all present. Gives where the bytes start and end.
pub open spec fn delimited_at(b: Seq<u8>, pos: int) -> Option<(int, int)> {
    match varint_at(b, pos) {
        None => None,
        Some((v, n)) => if n + (v as u32) > b.len() {
            None
        } else {
            Some((n, n + (v as u32)))
        },
    }
}

/// Where a value of wire type `wire_type` that starts at `pos` ends: a varint, eight bytes,
/// a length-delimited value or four bytes.
pub open spec fn value_end(b: Seq<u8>, pos: int, wire_type: u32) -> Option<int> {
    if wire_type == 0 {
        match varint_at(b, pos) {
            Some((_, n)) => Some(n),
            None => None,
        }
    } else if wire_type == 1 {
        if pos + 8 <= b.len() { Some(pos + 8) } else { None }
    } else if wire_type == 2 {
        match delimited_at(b, pos) {
            Some((_, e)) => Some(e),
            None => None,
        }
    } else if wire_type == 5 {
        if pos + 4 <= b.len() { Some(pos + 4) } else { None }
    } else {
        None
    }
}

/// Where a group that starts at `pos` ends: fields up to the end-group tag, none of them a
/// group itself.
pub open spec fn group_end(b: Seq<u8>, pos: int) -> Option<int>
    decreases b.len() - pos,
{
    match tag_at(b, pos) {
        None => None,
        Some((_, wt, n)) => {
            proof {
                lemma_tag_advances(b, pos);
            }
            if wt == 4 {
                Some(n)
            } else {
                match value_end(b, n, wt) {
                    None => None,
                    Some(e) => {
                        proof {
                            lemma_value_end_advances(b, n, wt);
                        }
                        group_end(b, e)
                    },
                }
            }
        },
    }
}

/// Where an unknown field's value of wire type `wire_type` that starts at `pos` ends; a
/// group is skipped whole, and an end-group tag out of a group is refused.
pub open spec fn skip_end(b: Seq<u8>, pos: int, wire_type: u32) -> Option<int> {
    if wire_type == 3 {
        group_end(b, pos)
    } else {
        value_end(b, pos, wire_type)
    }
}

/// The contract address that the fields from `pos` on leave, `found` being the one read so
/// far: a later address replaces an earlier one; fields 1 and 2 must be length-delimited,
/// and each address valid UTF-8; other fields are skipped. `None` when the data is
/// malformed.
pub open spec fn address_from(b: Seq<u8>, pos: int, found: Seq<char>) -> Option<Seq<char>>
    decreases b.len() - pos,
{
    if pos < 0 || pos >= b.len() {
        Some(found)
    } else {
        match tag_at(b, pos) {
            None => None,
            Some((field, wt, n)) => {
                proof {
                    lemma_tag_advances(b, pos);
                }
                if field == 1 || field == 2 {
                    if wt != 2 {
                        None
                    } else {
                        match delimited_at(b, n) {
                            None => None,
                            Some((s, e)) => {
                                proof {
                                    lemma_delimited_advances(b, n);
                                }
                                if field == 2 {
                                    address_from(b, e, found)
                                } else if valid_utf8(b.subrange(s, e)) {
                                    address_from(b, e, decode_utf8(b.subrange(s, e)))
                                } else {
                                    None
                                }
                            },
                        }
                    }
                } else {
                    match skip_end(b, n, wt) {
                        None => None,
                        Some(e) => {
                            proof {
                                lemma_skip_end_advances(b, n, wt);
                            }
                            address_from(b, e, found)
                        },
                    }
                }
            },
        }
    }
}

/// The address that the instantiation result `data` holds: the last field 1, or the empty
/// address when there is none. `None` when the data is malformed.
pub open spec fn instantiated_address_of(data: Seq<u8>) -> Option<Seq<char>> {
    address_from(data, 0, Seq::empty())
}

/// An instantiation result that holds just the address `address`, as the chain writes it:
/// the tag of field 1, length-delimited, the length in one byte, then the address's bytes.
pub open spec fn single_address_result(address: Seq<u8>) -> Seq<u8> {
    seq![0x0au8, address.len() as u8] + address
}

/// What is read back is what was written: the address of a result that holds only an
/// address of fewer than 128 bytes of valid UTF-8 is that address's text.
pub proof fn law_written_address_reads_back(address: Seq<u8>)
    requires
        address.len() < 128,
        valid_utf8(address),
    ensures
        instantiated_address_of(single_address_result(address)) == Some(decode_utf8(address)),
{
    let b = single_address_result(address);
    let len = address.len() as u8;
    assert(b[0] == 0x0au8);
    assert(b[1] == len);
    assert((0u64 | (((0x0au8 & 0x7f) as u64) << 0u64)) == 10u64) by (bit_vector);
    assert(varint_at(b, 0) == Some((10u64, 1int)));
    assert((10u64 as u32) & 7 == 2u32 && (10u64 as u32) >> 3u32 == 1u32) by (bit_vector);
    assert(tag_at(b, 0) == Some((1u32, 2u32, 1int)));
    assert((0u64 | (((len & 0x7f) as u64) << 0u64)) == len as u64) by (bit_vector)
        requires
            len < 128,
    ;
    assert(((len as u64) as u32) == len as u32) by (bit_vector);
    assert(varint_at(b, 1) == Some((len as u64, 2int)));
    assert(delimited_at(b, 1) == Some((2int, 2 + address.len() as int)));
    assert(b.subrange(2, 2 + address.len() as int) =~= address);
    assert(address_from(b, 2 + address.len() as int, decode_utf8(address)) == Some(decode_utf8(address)));
}

pub proof fn lemma_varint_advances(b: Seq<u8>, pos: int, i: nat, acc: u64)
    ensures
        varint_from(b, pos, i, acc) matches Some((_, n)) ==> pos < n <= b.len(),
    decreases 10 - i,
{
    if !(i >= 10 || pos < 0 || pos + i >= b.len()) && b[pos + i] >= 0x80 {
        lemma_varint_advances(b, pos, i + 1, acc | (((b[pos + i] & 0x7f) as u64) << ((i * 7) as u64)));
    }
}

pub proof fn lemma_tag_advances(b: Seq<u8>, pos: int)
    ensures
        tag_at(b, pos) matches Some((_, _, n)) ==> pos < n <= b.len(),
{
    lemma_varint_advances(b, pos, 0, 0);
}

pub proof fn lemma_delimited_advances(b: Seq<u8>, pos: int)
    ensures
        delimited_at(b, pos) matches Some((s, e)) ==> pos < s <= e <= b.len(),
{
    lemma_varint_advances(b, pos, 0, 0);
}

pub proof fn lemma_value_end_advances(b: Seq<u8>, pos: int, wire_type: u32)
    ensures
        value_end(b, pos, wire_type) matches Some(e) ==> pos < e <= b.len(),
{
    lemma_varint_advances(b, pos, 0, 0);
    lemma_delimited_advances(b, pos);
}

pub proof fn lemma_group_end_advances(b: Seq<u8>, pos: int)
    ensures
        group_end(b, pos) matches Some(e) ==> pos < e <= b.len(),
    decreases b.len() - pos,
{
    lemma_tag_advances(b, pos);
    if let Some((_, wt, n)) = tag_at(b, pos) {
        if wt != 4 {
            lemma_value_end_advances(b, n, wt);
            if let Some(e) = value_end(b, n, wt) {
                lemma_group_end_advances(b, e);
            }
        }
    }
}

pub proof fn lemma_skip_end_advances(b: Seq<u8>, pos: int, wire_type: u32)
    ensures
        skip_end(b, pos, wire_type) matches Some(e) ==> pos < e <= b.len(),
{
    lemma_group_end_advances(b, pos);
    lemma_value_end_advances(b, pos, wire_type);
}

/// Reads the varint at `pos`.
fn read_varint(b: &Vec<u8>, pos: usize) -> (r: Option<(u64, usize)>)
    ensures
        r is None <==> varint_at(b@, pos as int) is None,
        r matches Some((v, n)) ==> varint_at(b@, pos as int) == Some((v, n as int)),
{
    let mut acc: u64 = 0;
    let mut i: usize = 0;
    while i < 10
        invariant
            i <= 10,
            varint_at(b@, pos as int) == varint_from(b@, pos as int, i as nat, acc),
        decreases 10 - i,
    {
        if pos >= b.len() || i >= b.len() - pos {
            return None;
        }
        let byte = b[pos + i];
        acc = acc | (((byte & 0x7f) as u64) << ((i * 7) as u64));
        if byte < 0x80 {
            return Some((acc, pos + i + 1));
        }
        i = i + 1;
    }
    None
}

/// Reads the field tag at `pos`.
fn read_tag(b: &Vec<u8>, pos: usize) -> (r: Option<(u32, u32, usize)>)
    ensures
        r is None <==> tag_at(b@, pos as int) is None,
        r matches Some((f, wt, n)) ==> tag_at(b@, pos as int) == Some((f, wt, n as int)),
{
    match read_varint(b, pos) {
        None => None,
        Some((v, n)) => {
            let t = v as u32;
            if t & 7 > 5 || t >> 3u32 == 0 {
                None
            } else {
                Some((t >> 3u32, t & 7, n))
            }
        },
    }
}

/// Reads the length of the length-delimited value at `pos`.
fn read_delimited(b: &Vec<u8>, pos: usize) -> (r: Option<(usize, usize)>)
    ensures
        r is None <==> delimited_at(b@, pos as int) is None,
        r matches Some((s, e)) ==> delimited_at(b@, pos as int) == Some((s as int, e as int)),
{
    match read_varint(b, pos) {
        None => None,
        Some((v, n)) => {
            proof {
                lemma_varint_advances(b@, pos as int, 0, 0);
            }
            let len = v as u32;
            if len as usize > b.len() - n {
                None
            } else {
                Some((n, n + len as usize))
            }
        },
    }
}

/// Skips the value of wire type `wire_type` at `pos`.
fn skip_value(b: &Vec<u8>, pos: usize, wire_type: u32) -> (r: Option<usize>)
    requires
        pos <= b@.len(),
    ensures
        r is None <==> value_end(b@, pos as int, wire_type) is None,
        r matches Some(e) ==> value_end(b@, pos as int, wire_type) == Some(e as int),
{
    if wire_type == 0 {
        match read_varint(b, pos) {
            Some((_, n)) => Some(n),
            None => None,
        }
    } else if wire_type == 1 {
        if b.len() - pos >= 8 { Some(pos + 8) } else { None }
    } else if wire_type == 2 {
        match read_delimited(b, pos) {
            Some((_, e)) => Some(e),
            None => None,
        }
    } else if wire_type == 5 {
        if b.len() - pos >= 4 { Some(pos + 4) } else { None }
    } else {
        None
    }
}

/// Skips the group that starts at `pos`.
fn skip_group(b: &Vec<u8>, pos: usize) -> (r: Option<usize>)
    ensures
        r is None <==> group_end(b@, pos as int) is None,
        r matches Some(e) ==> group_end(b@, pos as int) == Some(e as int),
{
    let mut p = pos;
    while p <= b.len()
        invariant
            group_end(b@, pos as int) == group_end(b@, p as int),
        decreases b@.len() - p,
    {
        proof {
            lemma_tag_advances(b@, p as int);
        }
        let (_, wt, n) = match read_tag(b, p) {
            Some(t) => t,
            None => return None,
        };
        if wt == 4 {
            return Some(n);
        }
        proof {
            lemma_value_end_advances(b@, n as int, wt);
        }
        match skip_value(b, n, wt) {
            Some(e) => {
                p = e;
            },
            None => return None,
        }
    }
    proof {
        lemma_tag_advances(b@, p as int);
    }
    None
}

/// Copies the bytes from `s` to `e`.
fn copy_range(b: &Vec<u8>, s: usize, e: usize) -> (r: Vec<u8>)
    requires
        s <= e <= b@.len(),
    ensures
        r@ == b@.subrange(s as int, e as int),
{
    let mut r: Vec<u8> = Vec::new();
    let mut i = s;
    while i < e
        invariant
            s <= i <= e <= b@.len(),
            r@ == b@.subrange(s as int, i as int),
        decreases e - i,
    {
        r.push(b[i]);
        i = i + 1;
        assert(r@ =~= b@.subrange(s as int, i as int));
    }
    r
}

/// `String::from_utf8`: the text that `bytes` encode, when they are valid UTF-8. The
/// standard library returns an error exactly when they are not; this contract states the
/// text as the characters that vstd decodes from the bytes.
#[verifier::external_body]
fn utf8_text(bytes: Vec<u8>) -> (r: Option<String>)
    ensures
        r is Some <==> valid_utf8(bytes@),
        r matches Some(s) ==> s@ == decode_utf8(bytes@),
{
    String::from_utf8(bytes).ok()
}

/// The address of the contract that an instantiation created, read from the
/// `MsgInstantiateContractResponse` that the chain returns as the reply's data: the last
/// field 1, or the empty address when there is none; `None` when the data is malformed.
pub fn instantiated_address(data: &Vec<u8>) -> (r: Option<String>)
    ensures
        r is None <==> instantiated_address_of(data@) is None,
        r matches Some(a) ==> instantiated_address_of(data@) == Some(a@),
{
    let mut found = String::new();
    let mut p: usize = 0;
    while p < data.len()
        invariant
            p <= data@.len(),
            instantiated_address_of(data@) == address_from(data@, p as int, found@),
        decreases data@.len() - p,
    {
        proof {
            lemma_tag_advances(data@, p as int);
        }
        let (field, wt, n) = match read_tag(data, p) {
            Some(t) => t,
            None => return None,
        };
        if field == 1 || field == 2 {
            if wt != 2 {
                return None;
            }
            proof {
                lemma_delimited_advances(data@, n as int);
            }
            let (s, e) = match read_delimited(data, n) {
                Some(d) => d,
                None => return None,
            };
            if field == 1 {
                match utf8_text(copy_range(data, s, e)) {
                    Some(text) => {
                        found = text;
                    },
                    None => return None,
                }
            }
            p = e;
        } else {
            proof {
                lemma_skip_end_advances(data@, n as int, wt);
            }
            let e = if wt == 3 {
                skip_group(data, n)
            } else {
                skip_value(data, n, wt)
            };
            match e {
                Some(e) => {
                    p = e;
                },
                None => return None,
            }
        }
    }
    Some(found)
}

} // verus!
