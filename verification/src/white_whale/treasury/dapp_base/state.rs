//! The state of a dApp: its addresses, admin and address book.
use vstd::prelude::*;

use crate::asset::AssetInfo;
use crate::error::ContractError;
use crate::white_whale::convert::{convert_to_asset, spec_asset_info_of};
use crate::white_whale::memory::Memory;

verus! {

/// The main addresses that a dApp needs to send and check messages.
#[derive(Clone, Debug, PartialEq)]
pub struct BaseState {
    pub treasury_address: String,
    pub trader: String,
    pub memory: Memory,
}

/// The value that the first pair of `pairs` named `key` holds.
pub open spec fn first_match(pairs: Seq<(String, String)>, key: Seq<char>) -> Option<String>
    decreases pairs.len(),
{
    if pairs.len() == 0 {
        None
    } else if pairs[0].0@ == key {
        Some(pairs[0].1)
    } else {
        first_match(pairs.drop_first(), key)
    }
}

/// Appending a pair changes the first match only of a key that had none.
pub proof fn lemma_first_match_push(pairs: Seq<(String, String)>, x: (String, String), key: Seq<char>)
    ensures
        first_match(pairs.push(x), key) == match first_match(pairs, key) {
            Some(v) => Some(v),
            None => if x.0@ == key { Some(x.1) } else { None },
        },
    decreases pairs.len(),
{
    if pairs.len() == 0 {
        assert(pairs.push(x).drop_first() =~= Seq::<(String, String)>::empty());
        assert(pairs.push(x)[0] == x);
        assert(first_match(pairs.push(x).drop_first(), key) is None);
    } else {
        assert(pairs.push(x).drop_first() =~= pairs.drop_first().push(x));
        assert(pairs.push(x)[0] == pairs[0]);
        lemma_first_match_push(pairs.drop_first(), x, key);
    }
}

/// The address book: names of contracts and assets, and their addresses or denominations.
/// A name's entry is the first pair that bears it.
#[derive(Debug, PartialEq)]
pub struct AddressBook {
    pub entries: Vec<(String, String)>,
}

impl AddressBook {
    /// The entry of `name`.
    pub open spec fn lookup(&self, name: Seq<char>) -> Option<String> {
        first_match(self.entries@, name)
    }

    pub fn new() -> (b: AddressBook)
        ensures
            forall|n: Seq<char>| b.lookup(n) is None,
    {
        AddressBook { entries: Vec::new() }
    }

    /// The entry of `name` (`ADDRESS_BOOK.may_load`).
    pub fn get(&self, name: &String) -> (r: Option<String>)
        ensures
            r == self.lookup(name@),
    {
        let mut i: usize = 0;
        assert(self.entries@.subrange(0, self.entries@.len() as int) =~= self.entries@);
        while i < self.entries.len()
            invariant
                i <= self.entries@.len(),
                first_match(self.entries@, name@) == first_match(
                    self.entries@.subrange(i as int, self.entries@.len() as int),
                    name@,
                ),
            decreases self.entries@.len() - i,
        {
            let ghost rest = self.entries@.subrange(i as int, self.entries@.len() as int);
            assert(rest.drop_first() =~= self.entries@.subrange(i + 1, self.entries@.len() as int));
            if self.entries[i].0 == *name {
                return Some(self.entries[i].1.clone());
            }
            i = i + 1;
        }
        None
    }

    /// Gives `name` the entry `value` unless it has one (`ADDRESS_BOOK.update` with a
    /// function that keeps a present entry).
    pub fn insert_if_absent(&mut self, name: String, value: String)
        ensures
            forall|n: Seq<char>| #[trigger] final(self).lookup(n) == match old(self).lookup(n) {
                Some(v) => Some(v),
                None => if n == name@ { Some(value) } else { None },
            },
    {
        let present = self.get(&name);
        if present.is_none() {
            let ghost before = self.entries@;
            self.entries.push((name, value));
            proof {
                assert forall|n: Seq<char>| #[trigger] first_match(self.entries@, n) == match first_match(before, n) {
                    Some(v) => Some(v),
                    None => if n == name@ { Some(value) } else { None },
                } by {
                    lemma_first_match_push(before, (name, value), n);
                }
            }
        }
    }

    /// Deletes the entry of `name` (`ADDRESS_BOOK.remove`).
    pub fn remove(&mut self, name: &String)
        ensures
            forall|n: Seq<char>| #[trigger] final(self).lookup(n) == if n == name@ {
                None
            } else {
                old(self).lookup(n)
            },
    {
        let mut kept: Vec<(String, String)> = Vec::new();
        let mut i: usize = 0;
        while i < self.entries.len()
            invariant
                i <= self.entries@.len(),
                forall|n: Seq<char>| #[trigger] first_match(kept@, n) == if n == name@ {
                    None
                } else {
                    first_match(self.entries@.subrange(0, i as int), n)
                },
            decreases self.entries@.len() - i,
        {
            let ghost prefix = self.entries@.subrange(0, i as int);
            let ghost x = self.entries@[i as int];
            assert(self.entries@.subrange(0, i + 1) =~= prefix.push(x));
            let ghost before = kept@;
            if self.entries[i].0 != *name {
                let entry = (self.entries[i].0.clone(), self.entries[i].1.clone());
                kept.push(entry);
                proof {
                    assert forall|n: Seq<char>| #[trigger] first_match(kept@, n) == if n == name@ {
                        None
                    } else {
                        first_match(self.entries@.subrange(0, i + 1), n)
                    } by {
                        lemma_first_match_push(before, x, n);
                        lemma_first_match_push(prefix, x, n);
                    }
                }
            } else {
                proof {
                    assert forall|n: Seq<char>| #[trigger] first_match(kept@, n) == if n == name@ {
                        None
                    } else {
                        first_match(self.entries@.subrange(0, i + 1), n)
                    } by {
                        lemma_first_match_push(prefix, x, n);
                    }
                }
            }
            i = i + 1;
        }
        assert(self.entries@.subrange(0, self.entries@.len() as int) =~= self.entries@);
        self.entries = kept;
    }
}

/// The contract address that the entry `id` holds (`load_contract_addr`); the entry must
/// exist and be a valid address. `valid` is the chain's verdict on the entry.
pub fn load_contract_addr(book: &AddressBook, id: &String, valid: bool) -> (r: Result<String, ContractError>)
    ensures
        match book.lookup(id@) {
            None => r == Err::<String, ContractError>(ContractError::NotFound),
            Some(a) => if valid {
                r == Ok::<String, ContractError>(a)
            } else {
                r == Err::<String, ContractError>(ContractError::InvalidAddress)
            },
        },
{
    match book.get(id) {
        None => Err(ContractError::NotFound),
        Some(a) => if valid {
            Ok(a)
        } else {
            Err(ContractError::InvalidAddress)
        },
    }
}

/// The asset info of the entry `id` (`get_asset_info`); `valid` is the chain's verdict on
/// the entry as an address.
pub fn get_asset_info(book: &AddressBook, id: &String, valid: bool) -> (r: Result<AssetInfo, ContractError>)
    ensures
        match book.lookup(id@) {
            None => r == Err::<AssetInfo, ContractError>(ContractError::NotFound),
            Some(a) => r == spec_asset_info_of(a, valid),
        },
{
    match book.get(id) {
        None => Err(ContractError::NotFound),
        Some(address_or_denom) => convert_to_asset(address_or_denom, valid),
    }
}

} // verus!
