//! The setters that the dApp's admin controls.
use vstd::prelude::*;
use vstd::string::StringExecFns;

use crate::cosmos::{Response, attrs};
use crate::error::ContractError;
use crate::white_whale::treasury::dapp_base::msg::BaseExecuteMsg;
use crate::white_whale::treasury::dapp_base::state::{AddressBook, BaseState, first_match, lemma_first_match_push};

verus! {

/// A dApp's stored state: its addresses, its admin and its address book.
#[derive(Debug, PartialEq)]
pub struct DappBase {
    pub state: BaseState,
    pub admin: Option<String>,
    pub address_book: AddressBook,
}

/// `sender` is the admin (`ADMIN.assert_admin` passes).
pub open spec fn is_admin(admin: Option<String>, sender: String) -> bool {
    admin matches Some(a) && a@ == sender@
}

/// The answer to an address book update: no message, and the action.
pub open spec fn address_book_answer(resp: Response) -> bool {
    &&& resp.messages@.len() == 0
    &&& attrs(resp.attributes@) == seq![("action"@, "updated address book"@)]
}

/// The answer to a configuration update: no message, and the report of its success.
pub open spec fn config_answer(resp: Response) -> bool {
    &&& resp.messages@.len() == 0
    &&& attrs(resp.attributes@) == seq![("Update:"@, "Successfull"@)]
}

/// The answer to a new admin: no message, the previous admin and the new one.
pub open spec fn set_admin_answer(resp: Response, previous: String, admin: String) -> bool {
    &&& resp.messages@.len() == 0
    &&& attrs(resp.attributes@) == seq![("previous admin"@, previous@), ("admin"@, admin@)]
}

/// Whether `names` holds `name`.
pub open spec fn names_contain(names: Seq<String>, name: Seq<char>) -> bool {
    exists|j: int| 0 <= j < names.len() && (#[trigger] names[j])@ == name
}

/// The entry of `name` once `to_add` and `to_remove` are applied to `book`: a removed
/// name has none; a name that had an entry keeps it; else the first new pair of that
/// name gives it.
pub open spec fn updated_entry(
    book: AddressBook,
    to_add: Seq<(String, String)>,
    to_remove: Seq<String>,
    name: Seq<char>,
) -> Option<String> {
    if names_contain(to_remove, name) {
        None
    } else {
        match book.lookup(name) {
            Some(v) => Some(v),
            None => first_match(to_add, name),
        }
    }
}

/// Reading the address book after an update: a removed name has no entry; any other
/// name keeps the entry it had; a name that had none gets the address of its first pair
/// among those added.
pub proof fn law_address_book_update(
    book: AddressBook,
    to_add: Seq<(String, String)>,
    to_remove: Seq<String>,
    name: Seq<char>,
)
    ensures
        names_contain(to_remove, name) ==> updated_entry(book, to_add, to_remove, name) is None,
        !names_contain(to_remove, name) && book.lookup(name) is Some ==> updated_entry(book, to_add, to_remove, name)
            == book.lookup(name),
        !names_contain(to_remove, name) && book.lookup(name) is None ==> updated_entry(book, to_add, to_remove, name)
            == first_match(to_add, name),
        forall|i: int| #![trigger to_add[i]]
            0 <= i < to_add.len() && to_add[i].0@ == name && !names_contain(to_remove, name) && book.lookup(name) is None
                ==> updated_entry(book, to_add, to_remove, name) is Some,
{
    assert forall|i: int| #![trigger to_add[i]]
        0 <= i < to_add.len() && to_add[i].0@ == name implies first_match(to_add, name) is Some by {
        lemma_first_match_found(to_add, name, i);
    }
}

/// A name that some pair bears has a first match.
proof fn lemma_first_match_found(pairs: Seq<(String, String)>, name: Seq<char>, i: int)
    requires
        0 <= i < pairs.len(),
        pairs[i].0@ == name,
    ensures
        first_match(pairs, name) is Some,
    decreases pairs.len(),
{
    if pairs[0].0@ != name {
        assert(pairs.drop_first()[i - 1] == pairs[i]);
        lemma_first_match_found(pairs.drop_first(), name, i - 1);
    }
}

fn is_admin_exec(admin: &Option<String>, sender: &String) -> (b: bool)
    ensures
        b == is_admin(*admin, *sender),
{
    match admin {
        Some(a) => *a == *sender,
        None => false,
    }
}

impl DappBase {
    /// Adds the new names of `to_add` that have no entry, then deletes the names of
    /// `to_remove`; only the admin may.
    pub fn update_address_book(
        &mut self,
        sender: &String,
        to_add: Vec<(String, String)>,
        to_remove: Vec<String>,
    ) -> (r: Result<Response, ContractError>)
        ensures
            !is_admin(old(self).admin, *sender) ==> r == Err::<Response, ContractError>(ContractError::Unauthorized)
                && *final(self) == *old(self),
            is_admin(old(self).admin, *sender) ==> (r matches Ok(resp) && address_book_answer(resp)
                && final(self).state == old(self).state && final(self).admin == old(self).admin
                && forall|n: Seq<char>| #[trigger] final(self).address_book.lookup(n) == updated_entry(
                    old(self).address_book,
                    to_add@,
                    to_remove@,
                    n,
                )),
    {
        if !is_admin_exec(&self.admin, sender) {
            return Err(ContractError::Unauthorized);
        }
        let ghost old_book = self.address_book;
        let mut i: usize = 0;
        while i < to_add.len()
            invariant
                i <= to_add@.len(),
                self.state == old(self).state,
                self.admin == old(self).admin,
                old_book == old(self).address_book,
                forall|n: Seq<char>| #[trigger] self.address_book.lookup(n) == match old_book.lookup(n) {
                    Some(v) => Some(v),
                    None => first_match(to_add@.subrange(0, i as int), n),
                },
            decreases to_add@.len() - i,
        {
            let ghost prefix = to_add@.subrange(0, i as int);
            let ghost x = to_add@[i as int];
            assert(to_add@.subrange(0, i + 1) =~= prefix.push(x));
            let name = to_add[i].0.clone();
            let new_address = to_add[i].1.clone();
            self.address_book.insert_if_absent(name, new_address);
            proof {
                assert forall|n: Seq<char>| #[trigger] self.address_book.lookup(n) == match old_book.lookup(n) {
                    Some(v) => Some(v),
                    None => first_match(to_add@.subrange(0, i + 1), n),
                } by {
                    lemma_first_match_push(prefix, x, n);
                }
            }
            i = i + 1;
        }
        assert(to_add@.subrange(0, to_add@.len() as int) =~= to_add@);
        let ghost added = self.address_book;
        let mut j: usize = 0;
        while j < to_remove.len()
            invariant
                j <= to_remove@.len(),
                self.state == old(self).state,
                self.admin == old(self).admin,
                forall|n: Seq<char>| #[trigger] self.address_book.lookup(n) == if names_contain(
                    to_remove@.subrange(0, j as int),
                    n,
                ) {
                    None
                } else {
                    added.lookup(n)
                },
            decreases to_remove@.len() - j,
        {
            let ghost prefix = to_remove@.subrange(0, j as int);
            assert(to_remove@.subrange(0, j + 1) =~= prefix.push(to_remove@[j as int]));
            self.address_book.remove(&to_remove[j]);
            proof {
                assert forall|n: Seq<char>| #[trigger] self.address_book.lookup(n) == if names_contain(
                    to_remove@.subrange(0, j + 1),
                    n,
                ) {
                    None
                } else {
                    added.lookup(n)
                } by {
                    let ext = to_remove@.subrange(0, j + 1);
                    if names_contain(prefix, n) {
                        let w = choose|w: int| 0 <= w < prefix.len() && (#[trigger] prefix[w])@ == n;
                        assert(ext[w] == prefix[w]);
                    }
                    if n == to_remove@[j as int]@ {
                        assert(ext[j as int] == to_remove@[j as int]);
                    }
                    if names_contain(ext, n) && n != to_remove@[j as int]@ {
                        let w = choose|w: int| 0 <= w < ext.len() && (#[trigger] ext[w])@ == n;
                        assert(prefix[w] == ext[w]);
                    }
                }
            }
            j = j + 1;
        }
        assert(to_remove@.subrange(0, to_remove@.len() as int) =~= to_remove@);
        let resp = Response::new().add_attribute("action", String::from_str("updated address book"));
        assert(attrs(resp.attributes@) =~= seq![("action"@, "updated address book"@)]);
        Ok(resp)
    }

    /// Sets the treasury address and the trader, those that are given; only the admin
    /// may, and the addresses must be valid (`addresses_valid` is the chain's verdict on
    /// all the given ones).
    pub fn update_config(
        &mut self,
        sender: &String,
        treasury_address: Option<String>,
        trader: Option<String>,
        addresses_valid: bool,
    ) -> (r: Result<Response, ContractError>)
        ensures
            !is_admin(old(self).admin, *sender) ==> r == Err::<Response, ContractError>(ContractError::Unauthorized),
            is_admin(old(self).admin, *sender) && !addresses_valid && (treasury_address is Some || trader is Some)
                ==> r == Err::<Response, ContractError>(ContractError::InvalidAddress),
            r is Err ==> *final(self) == *old(self),
            r is Ok <==> is_admin(old(self).admin, *sender) && (addresses_valid || (treasury_address is None
                && trader is None)),
            r matches Ok(resp) ==> config_answer(resp)
                && final(self).admin == old(self).admin
                && final(self).address_book == old(self).address_book
                && final(self).state.memory == old(self).state.memory
                && final(self).state.treasury_address == match treasury_address {
                    Some(t) => t,
                    None => old(self).state.treasury_address,
                }
                && final(self).state.trader == match trader {
                    Some(t) => t,
                    None => old(self).state.trader,
                },
    {
        if !is_admin_exec(&self.admin, sender) {
            return Err(ContractError::Unauthorized);
        }
        if (treasury_address.is_some() || trader.is_some()) && !addresses_valid {
            return Err(ContractError::InvalidAddress);
        }
        if let Some(treasury_address) = treasury_address {
            self.state.treasury_address = treasury_address;
        }
        if let Some(trader) = trader {
            self.state.trader = trader;
        }
        let resp = Response::new().add_attribute("Update:", String::from_str("Successfull"));
        assert(attrs(resp.attributes@) =~= seq![("Update:"@, "Successfull"@)]);
        Ok(resp)
    }

    /// Handles the execute messages that every dApp shares. `addresses_valid` is the
    /// chain's verdict on the addresses that the message names.
    pub fn handle_base_message(
        &mut self,
        sender: &String,
        message: BaseExecuteMsg,
        addresses_valid: bool,
    ) -> (r: Result<Response, ContractError>)
        ensures
            !is_admin(old(self).admin, *sender) ==> r == Err::<Response, ContractError>(ContractError::Unauthorized),
            r is Err ==> *final(self) == *old(self),
            match message {
                BaseExecuteMsg::SetAdmin { admin } => is_admin(old(self).admin, *sender) ==> if addresses_valid {
                    (r matches Ok(resp) && set_admin_answer(resp, old(self).admin->0, admin))
                        && final(self).admin == Some(admin) && final(self).state == old(self).state
                        && final(self).address_book == old(self).address_book
                } else {
                    r == Err::<Response, ContractError>(ContractError::InvalidAddress)
                },
                BaseExecuteMsg::UpdateConfig { treasury_address, trader } => is_admin(old(self).admin, *sender) ==> (
                r is Ok <==> addresses_valid || (treasury_address is None && trader is None)) && (r is Ok
                    ==> final(self).state.treasury_address == match treasury_address {
                    Some(t) => t,
                    None => old(self).state.treasury_address,
                } && final(self).state.trader == match trader {
                    Some(t) => t,
                    None => old(self).state.trader,
                } && final(self).admin == old(self).admin && (r matches Ok(resp) && config_answer(resp))),
                BaseExecuteMsg::UpdateAddressBook { to_add, to_remove } => is_admin(old(self).admin, *sender) ==> (r
                    matches Ok(resp) && address_book_answer(resp)) && forall|n: Seq<char>| #[trigger] final(self).address_book.lookup(n) == updated_entry(
                    old(self).address_book,
                    to_add@,
                    to_remove@,
                    n,
                ),
            },
    {
        match message {
            BaseExecuteMsg::UpdateConfig { treasury_address, trader } => self.update_config(
                sender,
                treasury_address,
                trader,
                addresses_valid,
            ),
            BaseExecuteMsg::SetAdmin { admin } => {
                if !is_admin_exec(&self.admin, sender) {
                    return Err(ContractError::Unauthorized);
                }
                if !addresses_valid {
                    return Err(ContractError::InvalidAddress);
                }
                let previous = match &self.admin {
                    Some(a) => a.clone(),
                    None => String::new(),
                };
                let resp = Response::new().add_attribute("previous admin", previous).add_attribute(
                    "admin",
                    admin.clone(),
                );
                self.admin = Some(admin);
                assert(attrs(resp.attributes@) =~= seq![
                    ("previous admin"@, old(self).admin->0@),
                    ("admin"@, self.admin->0@),
                ]);
                Ok(resp)
            },
            BaseExecuteMsg::UpdateAddressBook { to_add, to_remove } => {
                self.update_address_book(sender, to_add, to_remove)
            },
        }
    }
}

} // verus!
