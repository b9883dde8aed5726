//! The WHALE vesting contract: the owner deposits WHALE and allocates it to users, who
//! withdraw what has unlocked.
use vstd::prelude::*;

use vstd::string::StringExecFns;

use crate::cosmos::{CheckedAddr, Cw20ReceiveMsg, Response, attrs, cw20_transfer_msg, is_cw20_transfer, plain};
use crate::error::ContractError;
use crate::math::{decimal, u128_to_string};

verus! {

/// When an allocation unlocks: from `start_time`, after a `cliff`, over `duration`
/// seconds.
#[derive(Clone, Copy, Debug, PartialEq, Eq, Structural)]
pub struct Schedule {
    pub start_time: u64,
    pub cliff: u64,
    pub duration: u64,
}

/// A user's allocation: the amount granted, the amount already withdrawn, and its own
/// unlock schedule, if it has one.
#[derive(Clone, Copy, Debug, PartialEq, Eq, Structural)]
pub struct AllocationInfo {
    pub total_amount: u128,
    pub withdrawn_amount: u128,
    pub vest_schedule: Option<Schedule>,
}

#[derive(Clone, Debug, PartialEq)]
pub struct InstantiateMsg {
    pub owner: String,
    pub whale_token: String,
    pub default_unlock_schedule: Schedule,
}

#[derive(Clone, Debug, PartialEq)]
pub enum ExecuteMsg {
    /// WHALE sent with a `ReceiveMsg`.
    Receive(Cw20ReceiveMsg),
    Withdraw,
    TransferOwnership { new_owner: String },
}

/// What the owner asks for when sending WHALE.
#[derive(Debug, PartialEq)]
pub enum ReceiveMsg {
    CreateAllocations { allocations: Vec<(String, AllocationInfo)> },
}

#[derive(Clone, Debug, PartialEq)]
pub enum QueryMsg {
    Config,
    State,
    Allocation { account: String },
}

#[derive(Clone, Debug, PartialEq)]
pub struct ConfigResponse {
    pub owner: String,
    pub whale_token: String,
    pub default_unlock_schedule: Schedule,
}

#[derive(Clone, Copy, Debug, PartialEq, Eq, Structural)]
pub struct StateResponse {
    pub total_whale_deposited: u128,
    pub remaining_whale_tokens: u128,
}

#[derive(Clone, Copy, Debug, PartialEq, Eq, Structural)]
pub struct AllocationResponse {
    pub total_amount: u128,
    pub withdrawn_amount: u128,
    pub vest_schedule: Option<Schedule>,
}

#[derive(Clone, Debug, PartialEq)]
pub struct Config {
    /// The account that creates allocations.
    pub owner: String,
    pub whale_token: String,
    /// The schedule of the allocations that have none of their own.
    pub default_unlock_schedule: Schedule,
}

#[derive(Clone, Copy, Debug, PartialEq, Eq, Structural)]
pub struct State {
    pub total_whale_deposited: u128,
    pub remaining_whale_tokens: u128,
}

/// A user's allocation, as stored.
#[derive(Clone, Debug, PartialEq)]
pub struct UserAllocation {
    pub user: String,
    pub info: AllocationInfo,
}

/// The stored allocations: at most one per user.
pub open spec fn allocations_wf(allocations: Seq<UserAllocation>) -> bool {
    forall|i: int, j: int|
        0 <= i < j < allocations.len() ==> (#[trigger] allocations[i]).user@ != (#[trigger] allocations[j]).user@
}

/// The configuration at instantiation. `addresses_valid` is the chain's verdict on the two
/// addresses.
pub fn instantiate(msg: InstantiateMsg, addresses_valid: bool) -> (r: Result<Config, ContractError>)
    ensures
        !addresses_valid ==> r == Err::<Config, ContractError>(ContractError::InvalidAddress),
        addresses_valid ==> r == Ok::<Config, ContractError>(
            Config { owner: msg.owner, whale_token: msg.whale_token, default_unlock_schedule: msg.default_unlock_schedule },
        ),
{
    if !addresses_valid {
        return Err(ContractError::InvalidAddress);
    }
    Ok(Config { owner: msg.owner, whale_token: msg.whale_token, default_unlock_schedule: msg.default_unlock_schedule })
}

/// Hands the contract to a new owner; only the owner may.
pub fn handle_transfer_ownership(
    config: &mut Config,
    sender: &String,
    new_owner: CheckedAddr,
) -> (r: Result<Response, ContractError>)
    ensures
        sender@ != old(config).owner@ ==> r == Err::<Response, ContractError>(ContractError::Unauthorized),
        sender@ == old(config).owner@ && !new_owner.valid ==> r == Err::<Response, ContractError>(
            ContractError::InvalidAddress,
        ),
        r is Ok <==> sender@ == old(config).owner@ && new_owner.valid,
        r is Err ==> *final(config) == *old(config),
        r matches Ok(resp) ==> resp.messages@.len() == 0 && *final(config) == (Config {
            owner: new_owner.addr,
            ..*old(config)
        }),
{
    if *sender != config.owner {
        return Err(ContractError::Unauthorized);
    }
    if !new_owner.valid {
        return Err(ContractError::InvalidAddress);
    }
    config.owner = new_owner.addr;
    Ok(Response::new())
}

/// The sum of the amounts granted by new allocations.
pub open spec fn total_granted(allocations: Seq<(CheckedAddr, AllocationInfo)>) -> int
    decreases allocations.len(),
{
    if allocations.len() == 0 {
        0
    } else {
        total_granted(allocations.drop_last()) + allocations.last().1.total_amount
    }
}

/// Whether `user` already has an allocation.
pub open spec fn has_allocation(allocations: Seq<UserAllocation>, user: Seq<char>) -> bool {
    exists|i: int| 0 <= i < allocations.len() && (#[trigger] allocations[i]).user@ == user
}

/// The new allocation at index `i` cannot be recorded: its user's address is invalid, or
/// the user already has an allocation, stored or earlier in the list.
pub open spec fn bad_allocation(existing: Seq<UserAllocation>, new: Seq<(CheckedAddr, AllocationInfo)>, i: int) -> bool {
    ||| !new[i].0.valid
    ||| has_allocation(existing, new[i].0.addr@)
    ||| exists|k: int| 0 <= k < i && (#[trigger] new[k]).0.addr@ == new[i].0.addr@
}

/// The error that the new allocation at index `i` meets.
pub open spec fn allocation_error(new: Seq<(CheckedAddr, AllocationInfo)>, i: int) -> ContractError {
    if !new[i].0.valid {
        ContractError::InvalidAddress
    } else {
        ContractError::AllocationExists
    }
}

/// The stored form of new allocations.
pub open spec fn stored(new: Seq<(CheckedAddr, AllocationInfo)>) -> Seq<UserAllocation> {
    new.map_values(|a: (CheckedAddr, AllocationInfo)| UserAllocation { user: a.0.addr, info: a.1 })
}

/// The request's own checks, before the allocations are looked at: the creator is the
/// owner, WHALE was sent, and as much as the allocations grant.
pub open spec fn creation_error(
    config: Config,
    creator: CheckedAddr,
    deposit_token: String,
    deposit_amount: u128,
    new: Seq<(CheckedAddr, AllocationInfo)>,
) -> Option<ContractError> {
    if !creator.valid {
        Some(ContractError::InvalidAddress)
    } else if creator.addr@ != config.owner@ {
        Some(ContractError::OnlyOwnerCanCreateAllocations)
    } else if deposit_token@ != config.whale_token@ {
        Some(ContractError::OnlyWhaleToken)
    } else if deposit_amount != total_granted(new) {
        Some(ContractError::DepositAmountMismatch)
    } else {
        None
    }
}

/// Reading an allocation after its creation: the `i`-th new allocation is stored under its
/// user with exactly what it grants, and with the stored allocations still unique it is
/// the only one of that user, so `query_allocation` answers it.
pub proof fn law_created_allocation_is_stored(
    existing: Seq<UserAllocation>,
    new: Seq<(CheckedAddr, AllocationInfo)>,
    i: int,
)
    requires
        0 <= i < new.len(),
    ensures
        (existing + stored(new))[existing.len() + i].user == new[i].0.addr,
        (existing + stored(new))[existing.len() + i].info == new[i].1,
        has_allocation(existing + stored(new), new[i].0.addr@),
{
    let all = existing + stored(new);
    assert(all[existing.len() + i] == stored(new)[i]);
}

/// The WHALE withdrawn from all the allocations.
pub open spec fn total_withdrawn(allocations: Seq<UserAllocation>) -> int
    decreases allocations.len(),
{
    if allocations.len() == 0 {
        0
    } else {
        total_withdrawn(allocations.drop_last()) + allocations.last().info.withdrawn_amount
    }
}

/// The books balance: what was deposited is what is still available plus what was
/// withdrawn.
pub open spec fn books_balance(state: Option<State>, allocations: Seq<UserAllocation>) -> bool {
    state_or_empty(state).total_whale_deposited == state_or_empty(state).remaining_whale_tokens + total_withdrawn(
        allocations,
    )
}

proof fn lemma_total_withdrawn_concat(a: Seq<UserAllocation>, b: Seq<UserAllocation>)
    ensures
        total_withdrawn(a + b) == total_withdrawn(a) + total_withdrawn(b),
    decreases b.len(),
{
    if b.len() == 0 {
        assert(a + b =~= a);
    } else {
        assert((a + b).drop_last() =~= a + b.drop_last());
        assert((a + b).last() == b.last());
        lemma_total_withdrawn_concat(a, b.drop_last());
    }
}

proof fn lemma_total_withdrawn_update(a: Seq<UserAllocation>, i: int, x: UserAllocation)
    requires
        0 <= i < a.len(),
    ensures
        total_withdrawn(a.update(i, x)) == total_withdrawn(a) - a[i].info.withdrawn_amount + x.info.withdrawn_amount,
    decreases a.len(),
{
    if i == a.len() - 1 {
        assert(a.update(i, x).drop_last() =~= a.drop_last());
    } else {
        assert(a.update(i, x).drop_last() =~= a.drop_last().update(i, x));
        lemma_total_withdrawn_update(a.drop_last(), i, x);
    }
}

proof fn lemma_fresh_allocations_withdraw_nothing(new: Seq<(CheckedAddr, AllocationInfo)>)
    requires
        forall|k: int| 0 <= k < new.len() ==> (#[trigger] new[k]).1.withdrawn_amount == 0,
    ensures
        total_withdrawn(stored(new)) == 0,
    decreases new.len(),
{
    if new.len() > 0 {
        assert(stored(new).drop_last() =~= stored(new.drop_last()));
        assert(new.drop_last().len() == new.len() - 1);
        assert forall|k: int| 0 <= k < new.drop_last().len() implies (#[trigger] new.drop_last()[k]).1.withdrawn_amount
            == 0 by {
            assert(new.drop_last()[k] == new[k]);
        }
        lemma_fresh_allocations_withdraw_nothing(new.drop_last());
    }
}

/// A deposit keeps the books balanced: when `handle_create_allocations` records
/// allocations from which nothing was withdrawn yet, the deposit is added both to what was
/// deposited and to what is available.
pub proof fn law_deposit_keeps_books(
    state: Option<State>,
    allocations: Seq<UserAllocation>,
    new: Seq<(CheckedAddr, AllocationInfo)>,
    deposit_amount: u128,
)
    requires
        books_balance(state, allocations),
        forall|k: int| 0 <= k < new.len() ==> (#[trigger] new[k]).1.withdrawn_amount == 0,
        state_or_empty(state).total_whale_deposited + deposit_amount <= u128::MAX,
        state_or_empty(state).remaining_whale_tokens + deposit_amount <= u128::MAX,
    ensures
        books_balance(Some(deposited(state, deposit_amount)), allocations + stored(new)),
{
    lemma_total_withdrawn_concat(allocations, stored(new));
    lemma_fresh_allocations_withdraw_nothing(new);
}

/// A withdrawal keeps the books balanced: `handle_withdraw` moves the amount from what is
/// available to what the allocation has withdrawn.
pub proof fn law_withdraw_keeps_books(state: State, allocations: Seq<UserAllocation>, i: int, amount: u128)
    requires
        books_balance(Some(state), allocations),
        0 <= i < allocations.len(),
        amount <= state.remaining_whale_tokens,
        allocations[i].info.withdrawn_amount + amount <= u128::MAX,
    ensures
        books_balance(
            Some(State { remaining_whale_tokens: (state.remaining_whale_tokens - amount) as u128, ..state }),
            allocations.update(
                i,
                UserAllocation {
                    info: AllocationInfo {
                        withdrawn_amount: (allocations[i].info.withdrawn_amount + amount) as u128,
                        ..allocations[i].info
                    },
                    ..allocations[i]
                },
            ),
        ),
{
    lemma_total_withdrawn_update(
        allocations,
        i,
        UserAllocation {
            info: AllocationInfo {
                withdrawn_amount: (allocations[i].info.withdrawn_amount + amount) as u128,
                ..allocations[i].info
            },
            ..allocations[i]
        },
    );
}

/// Sums the amounts granted by new allocations.
fn sum_granted(allocations: &Vec<(CheckedAddr, AllocationInfo)>) -> (s: u128)
    requires
        total_granted(allocations@) <= u128::MAX,
    ensures
        s == total_granted(allocations@),
{
    let mut s: u128 = 0;
    let mut i: usize = 0;
    while i < allocations.len()
        invariant
            i <= allocations@.len(),
            s == total_granted(allocations@.subrange(0, i as int)),
            total_granted(allocations@) <= u128::MAX,
        decreases allocations@.len() - i,
    {
        assert(allocations@.subrange(0, i + 1).drop_last() =~= allocations@.subrange(0, i as int));
        proof {
            lemma_total_granted_prefix_le(allocations@, i + 1);
        }
        s = s + allocations[i].1.total_amount;
        i = i + 1;
    }
    assert(allocations@.subrange(0, allocations@.len() as int) =~= allocations@);
    s
}

/// A prefix of new allocations grants no more than all of them.
proof fn lemma_total_granted_prefix_le(allocations: Seq<(CheckedAddr, AllocationInfo)>, n: int)
    requires
        0 <= n <= allocations.len(),
    ensures
        total_granted(allocations.subrange(0, n)) <= total_granted(allocations),
    decreases allocations.len(),
{
    if n < allocations.len() {
        assert(allocations.drop_last() =~= allocations.subrange(0, allocations.len() - 1));
        assert(allocations.subrange(0, n) =~= allocations.drop_last().subrange(0, n));
        lemma_total_granted_prefix_le(allocations.drop_last(), n);
    } else {
        assert(allocations.subrange(0, n) =~= allocations);
    }
}

fn find_allocation(allocations: &Vec<UserAllocation>, user: &String) -> (r: Option<usize>)
    ensures
        r is None <==> !has_allocation(allocations@, user@),
        r matches Some(i) ==> i < allocations@.len() && allocations@[i as int].user@ == user@,
{
    let mut i: usize = 0;
    while i < allocations.len()
        invariant
            i <= allocations@.len(),
            forall|j: int| 0 <= j < i ==> (#[trigger] allocations@[j]).user@ != user@,
        decreases allocations@.len() - i,
    {
        if allocations[i].user == *user {
            return Some(i);
        }
        i = i + 1;
    }
    None
}

/// The deposit totals before anything was deposited.
pub open spec fn state_or_empty(state: Option<State>) -> State {
    match state {
        Some(s) => s,
        None => State { total_whale_deposited: 0, remaining_whale_tokens: 0 },
    }
}

/// The deposit totals after `amount` more WHALE was deposited.
pub open spec fn deposited(state: Option<State>, amount: u128) -> State {
    State {
        total_whale_deposited: (state_or_empty(state).total_whale_deposited + amount) as u128,
        remaining_whale_tokens: (state_or_empty(state).remaining_whale_tokens + amount) as u128,
    }
}

/// Records new allocations of the WHALE that the owner sent (`ReceiveMsg::CreateAllocations`):
/// the creator must be the owner, the tokens WHALE, and their amount what the allocations
/// grant; each user must be a valid address with no allocation yet. `creator` is the CW20
/// sender, `deposit_token` the token contract that sent the tokens. Nothing is recorded
/// unless all are; when they are, the deposit is added to the WHALE deposited and to the
/// WHALE still available.
pub fn handle_create_allocations(
    config: &Config,
    state: &mut Option<State>,
    allocations: &mut Vec<UserAllocation>,
    creator: CheckedAddr,
    deposit_token: String,
    deposit_amount: u128,
    new: Vec<(CheckedAddr, AllocationInfo)>,
) -> (r: Result<Response, ContractError>)
    requires
        allocations_wf(old(allocations)@),
        creator.valid && creator.addr@ == config.owner@ && deposit_token@ == config.whale_token@ ==> total_granted(new@)
            <= u128::MAX,
        creation_error(*config, creator, deposit_token, deposit_amount, new@) is None ==> {
            &&& state_or_empty(*old(state)).total_whale_deposited + deposit_amount <= u128::MAX
            &&& state_or_empty(*old(state)).remaining_whale_tokens + deposit_amount <= u128::MAX
        },
    ensures
        allocations_wf(final(allocations)@),
        r is Err ==> final(allocations)@ == old(allocations)@ && *final(state) == *old(state),
        r is Ok ==> *final(state) == Some(deposited(*old(state), deposit_amount)),
        creation_error(*config, creator, deposit_token, deposit_amount, new@) matches Some(e) ==> r == Err::<
            Response,
            ContractError,
        >(e),
        creation_error(*config, creator, deposit_token, deposit_amount, new@) is None ==> {
            &&& forall|i: int| 0 <= i < new@.len() && bad_allocation(old(allocations)@, new@, i) && (forall|j: int|
                0 <= j < i ==> !#[trigger] bad_allocation(old(allocations)@, new@, j)) ==> r == Err::<
                Response,
                ContractError,
            >(allocation_error(new@, i))
            &&& (forall|i: int| 0 <= i < new@.len() ==> !#[trigger] bad_allocation(old(allocations)@, new@, i)) ==> (r matches Ok(
                resp,
            ) && resp.messages@.len() == 0 && resp.attributes@.len() == 0 && final(allocations)@ == old(allocations)@
                + stored(new@))
        },
{
    if !creator.valid {
        return Err(ContractError::InvalidAddress);
    }
    if creator.addr != config.owner {
        return Err(ContractError::OnlyOwnerCanCreateAllocations);
    }
    if deposit_token != config.whale_token {
        return Err(ContractError::OnlyWhaleToken);
    }
    if deposit_amount != sum_granted(&new) {
        return Err(ContractError::DepositAmountMismatch);
    }
    let ghost before = allocations@;
    let mut added: Vec<UserAllocation> = Vec::new();
    let mut i: usize = 0;
    while i < new.len()
        invariant
            i <= new@.len(),
            allocations@ == before,
            before == old(allocations)@,
            allocations_wf(before),
            creation_error(*config, creator, deposit_token, deposit_amount, new@) is None,
            *state == *old(state),
            added@ == stored(new@.subrange(0, i as int)),
            forall|j: int| 0 <= j < i ==> !#[trigger] bad_allocation(before, new@, j),
        decreases new@.len() - i,
    {
        let user = &new[i].0;
        if !user.valid {
            assert(bad_allocation(before, new@, i as int));
            return Err(ContractError::InvalidAddress);
        }
        let exists_stored = find_allocation(allocations, &user.addr);
        let exists_new = find_allocation(&added, &user.addr);
        if exists_stored.is_some() || exists_new.is_some() {
            proof {
                if let Some(k) = exists_new {
                    assert(added@[k as int].user@ == new@[k as int].0.addr@);
                    assert(0 <= k < i && new@[k as int].0.addr@ == new@[i as int].0.addr@);
                }
                assert(bad_allocation(before, new@, i as int));
            }
            return Err(ContractError::AllocationExists);
        }
        proof {
            assert forall|k: int| 0 <= k < i implies (#[trigger] new@[k]).0.addr@ != new@[i as int].0.addr@ by {
                assert(added@[k].user@ == new@[k].0.addr@);
            }
            assert(!bad_allocation(before, new@, i as int));
        }
        added.push(UserAllocation { user: new[i].0.addr.clone(), info: new[i].1 });
        i = i + 1;
        assert(added@ =~= stored(new@.subrange(0, i as int)));
    }
    assert(new@.subrange(0, new@.len() as int) =~= new@);
    proof {
        assert forall|a: int, b: int| 0 <= a < b < before.len() + added@.len() implies (#[trigger] (before + added@)[a]).user@
            != (#[trigger] (before + added@)[b]).user@ by {
            if b >= before.len() {
                let kb = b - before.len();
                assert(!bad_allocation(before, new@, kb));
                if a < before.len() {
                    assert(has_allocation(before, new@[kb].0.addr@) || before[a].user@ != new@[kb].0.addr@);
                } else {
                    let ka = a - before.len();
                    assert(new@[ka].0.addr@ != new@[kb].0.addr@);
                }
            }
        }
    }
    allocations.append(&mut added);
    let prior = match state {
        Some(st) => *st,
        None => State { total_whale_deposited: 0, remaining_whale_tokens: 0 },
    };
    *state = Some(
        State {
            total_whale_deposited: prior.total_whale_deposited + deposit_amount,
            remaining_whale_tokens: prior.remaining_whale_tokens + deposit_amount,
        },
    );
    Ok(Response::new())
}

/// Why a withdrawal fails, if it does: the contract has no state, the sender no
/// allocation, or nothing is left to withdraw.
pub open spec fn withdraw_error(
    state: Option<State>,
    allocations: Seq<UserAllocation>,
    sender: Seq<char>,
    withdrawable_amount: u128,
) -> Option<ContractError> {
    if state is None || !has_allocation(allocations, sender) {
        Some(ContractError::NotFound)
    } else {
        let a = allocations[choose|i: int| 0 <= i < allocations.len() && (#[trigger] allocations[i]).user@ == sender].info;
        if a.total_amount == 0 || a.total_amount == a.withdrawn_amount || withdrawable_amount == 0 {
            Some(ContractError::NoUnlockedWhale)
        } else {
            None
        }
    }
}

/// Sends the sender the WHALE of their allocation that has unlocked. The unlocked amount
/// not yet withdrawn, `withdrawable_amount`, comes from the allocation's unlock schedule
/// at the block's time. The withdrawal is recorded on the allocation and taken from the
/// remaining tokens.
pub fn handle_withdraw(
    config: &Config,
    state: &mut Option<State>,
    allocations: &mut Vec<UserAllocation>,
    sender: &String,
    withdrawable_amount: u128,
) -> (r: Result<Response, ContractError>)
    requires
        allocations_wf(old(allocations)@),
        withdraw_error(*old(state), old(allocations)@, sender@, withdrawable_amount) is None ==> {
            let a = old(allocations)@[choose|i: int|
                0 <= i < old(allocations)@.len() && (#[trigger] old(allocations)@[i]).user@ == sender@].info;
            &&& a.withdrawn_amount + withdrawable_amount <= u128::MAX
            &&& withdrawable_amount <= old(state)->0.remaining_whale_tokens
        },
    ensures
        allocations_wf(final(allocations)@),
        withdraw_error(*old(state), old(allocations)@, sender@, withdrawable_amount) matches Some(e) ==> r == Err::<
            Response,
            ContractError,
        >(e) && *final(state) == *old(state) && final(allocations)@ == old(allocations)@,
        withdraw_error(*old(state), old(allocations)@, sender@, withdrawable_amount) is None ==> {
            let i = choose|i: int| 0 <= i < old(allocations)@.len() && (#[trigger] old(allocations)@[i]).user@ == sender@;
            let a = old(allocations)@[i];
            &&& r matches Ok(resp) && resp.messages@.len() == 1 && resp.messages@[0] == plain(resp.messages@[0].msg)
                && is_cw20_transfer(resp.messages@[0].msg, config.whale_token, *sender, withdrawable_amount)
                && attrs(resp.attributes@) == seq![
                    ("action"@, "withdraw"@),
                    ("user"@, sender@),
                    ("withdrawn_amount"@, decimal(withdrawable_amount as nat)),
                ]
            &&& *final(state) == Some(
                State {
                    remaining_whale_tokens: (old(state)->0.remaining_whale_tokens - withdrawable_amount) as u128,
                    ..old(state)->0
                },
            )
            &&& final(allocations)@ == old(allocations)@.update(
                i,
                UserAllocation {
                    info: AllocationInfo {
                        withdrawn_amount: (a.info.withdrawn_amount + withdrawable_amount) as u128,
                        ..a.info
                    },
                    ..a
                },
            )
        },
{
    let mut st = match state {
        Some(s) => *s,
        None => return Err(ContractError::NotFound),
    };
    let i = match find_allocation(allocations, sender) {
        Some(i) => i,
        None => return Err(ContractError::NotFound),
    };
    let ghost before = allocations@;
    let ghost k = choose|k: int| 0 <= k < before.len() && (#[trigger] before[k]).user@ == sender@;
    assert(k == i as int) by {
        assert(before[i as int].user@ == sender@);
        if k != i as int {
            if k < i as int {
                assert(before[k].user@ != before[i as int].user@);
            } else {
                assert(before[i as int].user@ != before[k].user@);
            }
        }
    }
    let allocation = allocations[i].info;
    if allocation.total_amount == 0 || allocation.total_amount == allocation.withdrawn_amount {
        return Err(ContractError::NoUnlockedWhale);
    }
    if withdrawable_amount == 0 {
        return Err(ContractError::NoUnlockedWhale);
    }
    allocations[i].info.withdrawn_amount = allocation.withdrawn_amount + withdrawable_amount;
    st.remaining_whale_tokens = st.remaining_whale_tokens - withdrawable_amount;
    *state = Some(st);
    proof {
        assert(allocations@ =~= before.update(
            i as int,
            UserAllocation {
                info: AllocationInfo {
                    withdrawn_amount: (before[i as int].info.withdrawn_amount + withdrawable_amount) as u128,
                    ..before[i as int].info
                },
                ..before[i as int]
            },
        ));
        assert forall|a: int, b: int| 0 <= a < b < allocations@.len() implies (#[trigger] allocations@[a]).user@
            != (#[trigger] allocations@[b]).user@ by {
            assert(before[a].user@ != before[b].user@);
        }
    }
    let resp = Response::new().add_attribute("action", String::from_str("withdraw")).add_message(
        cw20_transfer_msg(config.whale_token.clone(), sender.clone(), withdrawable_amount),
    ).add_attribute("user", sender.clone()).add_attribute("withdrawn_amount", u128_to_string(withdrawable_amount));
    assert(attrs(resp.attributes@) =~= seq![
        ("action"@, "withdraw"@),
        ("user"@, sender@),
        ("withdrawn_amount"@, decimal(withdrawable_amount as nat)),
    ]);
    Ok(resp)
}

/// The configuration, as the query answers it.
pub fn query_config(config: &Config) -> (r: ConfigResponse)
    ensures
        r == (ConfigResponse {
            owner: config.owner,
            whale_token: config.whale_token,
            default_unlock_schedule: config.default_unlock_schedule,
        }),
{
    ConfigResponse {
        owner: config.owner.clone(),
        whale_token: config.whale_token.clone(),
        default_unlock_schedule: config.default_unlock_schedule,
    }
}

/// The deposit totals; until WHALE is first deposited there are none and the query fails.
pub fn query_state(state: &Option<State>) -> (r: Result<StateResponse, ContractError>)
    ensures
        state is None ==> r == Err::<StateResponse, ContractError>(ContractError::NotFound),
        state matches Some(s) ==> r == Ok::<StateResponse, ContractError>(
            StateResponse {
                total_whale_deposited: s.total_whale_deposited,
                remaining_whale_tokens: s.remaining_whale_tokens,
            },
        ),
{
    match state {
        Some(s) => Ok(
            StateResponse {
                total_whale_deposited: s.total_whale_deposited,
                remaining_whale_tokens: s.remaining_whale_tokens,
            },
        ),
        None => Err(ContractError::NotFound),
    }
}

/// An account's allocation.
pub fn query_allocation(allocations: &Vec<UserAllocation>, account: CheckedAddr) -> (r: Result<AllocationResponse, ContractError>)
    requires
        allocations_wf(allocations@),
    ensures
        !account.valid ==> r == Err::<AllocationResponse, ContractError>(ContractError::InvalidAddress),
        account.valid && !has_allocation(allocations@, account.addr@) ==> r == Err::<AllocationResponse, ContractError>(
            ContractError::NotFound,
        ),
        account.valid ==> forall|i: int| 0 <= i < allocations@.len() && (#[trigger] allocations@[i]).user@ == account.addr@ ==> r
            == Ok::<AllocationResponse, ContractError>(
            AllocationResponse {
                total_amount: allocations@[i].info.total_amount,
                withdrawn_amount: allocations@[i].info.withdrawn_amount,
                vest_schedule: allocations@[i].info.vest_schedule,
            },
        ),
{
    if !account.valid {
        return Err(ContractError::InvalidAddress);
    }
    match find_allocation(allocations, &account.addr) {
        None => Err(ContractError::NotFound),
        Some(i) => {
            proof {
                assert forall|k: int| 0 <= k < allocations@.len() && (#[trigger] allocations@[k]).user@
                    == account.addr@ implies k == i as int by {
                    if k < i as int {
                        assert(allocations@[k].user@ != allocations@[i as int].user@);
                    } else if k > i as int {
                        assert(allocations@[i as int].user@ != allocations@[k].user@);
                    }
                }
            }
            let a = allocations[i].info;
            Ok(
                AllocationResponse {
                    total_amount: a.total_amount,
                    withdrawn_amount: a.withdrawn_amount,
                    vest_schedule: a.vest_schedule,
                },
            )
        },
    }
}

} // verus!
