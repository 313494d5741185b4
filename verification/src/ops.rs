//! The five lifecycle operations, each a single atomic state transition over
//! the records the runtime has loaded for it: the operation either fully
//! applies (ownership checked, counters moved with checked arithmetic, the
//! escrow transfer performed) or returns an error and changes nothing.

use vstd::prelude::*;

use crate::addr::pda_of;
use crate::addr::spec_authority_seed;
use crate::error::TodoError;
use crate::states::AccountId;
use crate::states::EscrowState;
use crate::states::UserProfile;
use crate::states::UserRepos;
use crate::states::UserTickets;
use crate::states::profile_fresh;

verus! {

/// One successful repository creation, seen from the profile: both counters
/// move up by one and nothing else changes.
pub open spec fn repo_added(before: UserProfile, after: UserProfile) -> bool {
    &&& before.last_repo < 255
    &&& before.repo_count < 255
    &&& after.last_repo == before.last_repo + 1
    &&& after.repo_count == before.repo_count + 1
    &&& after.authority@ == before.authority@
    &&& after.github@ == before.github@
}

/// One successful to-do creation, seen from the repository: both counters
/// move up by one and nothing else changes.
pub open spec fn todo_added(before: UserRepos, after: UserRepos) -> bool {
    &&& before.last_todo < 255
    &&& before.todo_count < 255
    &&& after.last_todo == before.last_todo + 1
    &&& after.todo_count == before.todo_count + 1
    &&& after.authority@ == before.authority@
    &&& after.repo@ == before.repo@
}

/// One successful to-do removal, seen from the repository: the live count
/// moves down by one while the creation counter keeps its value, so a spent
/// index is never reused.
pub open spec fn todo_removed(before: UserRepos, after: UserRepos) -> bool {
    &&& before.todo_count > 0
    &&& after.todo_count == before.todo_count - 1
    &&& after.last_todo == before.last_todo
    &&& after.authority@ == before.authority@
    &&& after.repo@ == before.repo@
}

/// The deposit terms of an escrowed to-do creation.
#[derive(Debug, PartialEq, Eq)]
pub struct DepositTerms {
    /// The seed that keys the escrow receipt's storage slot.
    pub random_seed: u64,
    /// The amount to move from the depositor into custody.
    pub initializer_amount: u64,
    /// The counter-amount recorded for a future exchange.
    pub taker_amount: u64,
    /// Address of the account the deposit is drawn from.
    pub initializer_deposit_token_account: AccountId,
    /// Address of the account a future counter-transfer would pay into.
    pub initializer_receive_token_account: AccountId,
    /// The derivation bump of the custody authority's address.
    pub vault_authority_bump: u8,
}

/// The escrow receipt that records exactly the terms of one deposit by
/// `authority`.
pub open spec fn receipt_for(e: EscrowState, d: DepositTerms, authority: Seq<u8>) -> bool {
    &&& e.random_seed == d.random_seed
    &&& e.initializer_key@ == authority
    &&& e.initializer_deposit_token_account@ == d.initializer_deposit_token_account@
    &&& e.initializer_receive_token_account@ == d.initializer_receive_token_account@
    &&& e.initializer_amount == d.initializer_amount
    &&& e.taker_amount == d.taker_amount
    &&& e.vault_authority_bump == d.vault_authority_bump
}

/// Creates the caller's user profile. The runtime reports through `occupied`
/// whether a record already sits at the profile's derived address; creation
/// is refused if one does.
pub fn initialize_user(authority: AccountId, github: String, occupied: bool)
    -> (r: Result<UserProfile, TodoError>)
    ensures
        occupied ==> r == Err::<UserProfile, TodoError>(TodoError::AlreadyExists),
        !occupied ==> (r matches Ok(p) && profile_fresh(p, authority@, github@)),
{
    if occupied {
        return Err(TodoError::AlreadyExists);
    }
    Ok(UserProfile { authority, github, last_repo: 0, repo_count: 0 })
}

/// Creates a repository under the caller's profile: the caller must own the
/// profile, and both profile counters move up by one with checked arithmetic.
/// The new repository takes index `old(user_profile).last_repo` and starts
/// with zero to-do items.
pub fn add_repo(user_profile: &mut UserProfile, authority: &AccountId, repo: String)
    -> (r: Result<UserRepos, TodoError>)
    ensures
        r is Ok <==> (old(user_profile).authority@ == authority@
            && old(user_profile).last_repo < 255 && old(user_profile).repo_count < 255),
        old(user_profile).authority@ != authority@
            ==> r == Err::<UserRepos, TodoError>(TodoError::Unauthorized),
        old(user_profile).authority@ == authority@
            && (old(user_profile).last_repo == 255 || old(user_profile).repo_count == 255)
            ==> r == Err::<UserRepos, TodoError>(TodoError::CounterOverflow),
        r is Err ==> *final(user_profile) == *old(user_profile),
        r is Ok ==> repo_added(*old(user_profile), *final(user_profile)),
        r matches Ok(new_repo) ==> new_repo.authority@ == authority@
            && new_repo.repo@ == repo@ && new_repo.last_todo == 0 && new_repo.todo_count == 0,
{
    if !user_profile.authority.eq_id(authority) {
        return Err(TodoError::Unauthorized);
    }
    if user_profile.last_repo == 255 || user_profile.repo_count == 255 {
        return Err(TodoError::CounterOverflow);
    }
    let repo_account = UserRepos {
        authority: AccountId { bytes: crate::addr::clone_bytes(&authority.bytes) },
        repo,
        last_todo: 0,
        todo_count: 0,
    };
    user_profile.last_repo = user_profile.last_repo + 1;
    user_profile.repo_count = user_profile.repo_count + 1;
    Ok(repo_account)
}

/// Creates a to-do item under `repo_account`, gated by an escrow deposit when
/// `deposit` carries terms: the caller must own the repository, the
/// depositor's balance must cover the deposit, and both repository counters
/// move up by one with checked arithmetic. On success with terms, exactly the
/// deposit amount moves from `deposit_balance` into `vault_balance` and a
/// write-once escrow receipt is returned beside the new item; on any error
/// nothing changes and no record is created. The new item takes index
/// `old(repo_account).last_todo` and starts unmarked.
pub fn add_todo(
    repo_account: &mut UserRepos,
    authority: &AccountId,
    content: String,
    deposit: Option<DepositTerms>,
    deposit_balance: &mut u64,
    vault_balance: &mut u64,
) -> (r: Result<(UserTickets, Option<EscrowState>), TodoError>)
    requires
        deposit matches Some(d)
            ==> *old(vault_balance) + d.initializer_amount <= u64::MAX,
    ensures
        r is Ok <==> (old(repo_account).authority@ == authority@
            && (deposit matches Some(d) ==> d.initializer_amount <= *old(deposit_balance))
            && old(repo_account).last_todo < 255 && old(repo_account).todo_count < 255),
        old(repo_account).authority@ != authority@
            ==> r == Err::<(UserTickets, Option<EscrowState>), TodoError>(
                TodoError::Unauthorized),
        old(repo_account).authority@ == authority@
            && (deposit matches Some(d) && d.initializer_amount > *old(deposit_balance))
            ==> r == Err::<(UserTickets, Option<EscrowState>), TodoError>(
                TodoError::InsufficientFunds),
        old(repo_account).authority@ == authority@
            && (deposit matches Some(d) ==> d.initializer_amount <= *old(deposit_balance))
            && (old(repo_account).last_todo == 255 || old(repo_account).todo_count == 255)
            ==> r == Err::<(UserTickets, Option<EscrowState>), TodoError>(
                TodoError::CounterOverflow),
        r is Err ==> *final(repo_account) == *old(repo_account)
            && *final(deposit_balance) == *old(deposit_balance)
            && *final(vault_balance) == *old(vault_balance),
        r is Ok ==> todo_added(*old(repo_account), *final(repo_account)),
        r matches Ok(created) ==> created.0.authority@ == authority@
            && created.0.content@ == content@ && !created.0.marked,
        r is Ok ==> (match (deposit, r) {
            (Some(d), Ok(created)) => created.1 matches Some(e)
                && receipt_for(e, d, authority@)
                && *final(deposit_balance) == *old(deposit_balance) - d.initializer_amount
                && *final(vault_balance) == *old(vault_balance) + d.initializer_amount,
            (None, Ok(created)) => created.1 is None
                && *final(deposit_balance) == *old(deposit_balance)
                && *final(vault_balance) == *old(vault_balance),
            _ => true,
        }),
{
    if !repo_account.authority.eq_id(authority) {
        return Err(TodoError::Unauthorized);
    }
    let receipt: Option<EscrowState> = match deposit {
        Some(d) => {
            if d.initializer_amount > *deposit_balance {
                return Err(TodoError::InsufficientFunds);
            }
            Some(EscrowState {
                random_seed: d.random_seed,
                initializer_key: AccountId {
                    bytes: crate::addr::clone_bytes(&authority.bytes),
                },
                initializer_deposit_token_account: d.initializer_deposit_token_account,
                initializer_receive_token_account: d.initializer_receive_token_account,
                initializer_amount: d.initializer_amount,
                taker_amount: d.taker_amount,
                vault_authority_bump: d.vault_authority_bump,
            })
        },
        None => None,
    };
    if repo_account.last_todo == 255 || repo_account.todo_count == 255 {
        return Err(TodoError::CounterOverflow);
    }
    match &receipt {
        Some(e) => {
            *deposit_balance = *deposit_balance - e.initializer_amount;
            *vault_balance = *vault_balance + e.initializer_amount;
        },
        None => {},
    }
    let todo_account = UserTickets {
        authority: AccountId { bytes: crate::addr::clone_bytes(&authority.bytes) },
        content,
        marked: false,
    };
    repo_account.last_todo = repo_account.last_todo + 1;
    repo_account.todo_count = repo_account.todo_count + 1;
    Ok((todo_account, receipt))
}

/// Creates an escrowed to-do item for a program: the custody authority's
/// derivation bump is re-derived from the program identity and recorded in
/// the escrow receipt, and the deposit gate of [`add_todo`] applies. Where
/// the derivation primitive finds no valid custody address the operation
/// fails with `AddressMismatch` and changes nothing.
pub fn add_todo_for_program(
    repo_account: &mut UserRepos,
    authority: &AccountId,
    random_seed: u64,
    initializer_amount: u64,
    taker_amount: u64,
    content: String,
    initializer_deposit_token_account: AccountId,
    initializer_receive_token_account: AccountId,
    deposit_balance: &mut u64,
    vault_balance: &mut u64,
    program_id: &Vec<u8>,
) -> (r: Result<(UserTickets, EscrowState), TodoError>)
    requires
        program_id@.len() == 32,
        *old(vault_balance) + initializer_amount <= u64::MAX,
    ensures
        pda_of(seq![spec_authority_seed()], program_id@) is None
            ==> r == Err::<(UserTickets, EscrowState), TodoError>(TodoError::AddressMismatch),
        r is Err ==> *final(repo_account) == *old(repo_account)
            && *final(deposit_balance) == *old(deposit_balance)
            && *final(vault_balance) == *old(vault_balance),
        pda_of(seq![spec_authority_seed()], program_id@) is Some
            ==> (r is Ok <==> (old(repo_account).authority@ == authority@
                && initializer_amount <= *old(deposit_balance)
                && old(repo_account).last_todo < 255 && old(repo_account).todo_count < 255)),
        pda_of(seq![spec_authority_seed()], program_id@) is Some
            && old(repo_account).authority@ != authority@
            ==> r == Err::<(UserTickets, EscrowState), TodoError>(TodoError::Unauthorized),
        pda_of(seq![spec_authority_seed()], program_id@) is Some
            && old(repo_account).authority@ == authority@
            && initializer_amount > *old(deposit_balance)
            ==> r == Err::<(UserTickets, EscrowState), TodoError>(TodoError::InsufficientFunds),
        pda_of(seq![spec_authority_seed()], program_id@) is Some
            && old(repo_account).authority@ == authority@
            && initializer_amount <= *old(deposit_balance)
            && (old(repo_account).last_todo == 255 || old(repo_account).todo_count == 255)
            ==> r == Err::<(UserTickets, EscrowState), TodoError>(TodoError::CounterOverflow),
        r is Ok ==> todo_added(*old(repo_account), *final(repo_account))
            && *final(deposit_balance) == *old(deposit_balance) - initializer_amount
            && *final(vault_balance) == *old(vault_balance) + initializer_amount,
        r matches Ok(created) ==> created.0.authority@ == authority@
            && created.0.content@ == content@ && !created.0.marked
            && created.1.random_seed == random_seed
            && created.1.initializer_key@ == authority@
            && created.1.initializer_deposit_token_account@
                == initializer_deposit_token_account@
            && created.1.initializer_receive_token_account@
                == initializer_receive_token_account@
            && created.1.initializer_amount == initializer_amount
            && created.1.taker_amount == taker_amount
            && (pda_of(seq![spec_authority_seed()], program_id@)
                matches Some(q) ==> created.1.vault_authority_bump == q.1),
{
    let vault_authority_bump: u8 = match crate::addr::derive_vault_authority(program_id) {
        Some(p) => p.1,
        None => {
            return Err(TodoError::AddressMismatch);
        },
    };
    let terms = DepositTerms {
        random_seed,
        initializer_amount,
        taker_amount,
        initializer_deposit_token_account,
        initializer_receive_token_account,
        vault_authority_bump,
    };
    match add_todo(repo_account, authority, content, Some(terms), deposit_balance,
        vault_balance) {
        Ok((todo_account, Some(escrow_state))) => Ok((todo_account, escrow_state)),
        Ok((_, None)) => vstd::pervasive::unreached(),
        Err(e) => Err(e),
    }
}

/// Marks a to-do item as done: the caller must own both the parent
/// repository and the item, and the item must not be marked yet; marking is
/// a one-way transition, so a second call fails and leaves the item
/// unchanged.
pub fn mark_todo(repo_account: &UserRepos, todo_account: &mut UserTickets,
    authority: &AccountId) -> (r: Result<(), TodoError>)
    ensures
        r is Ok <==> (repo_account.authority@ == authority@
            && old(todo_account).authority@ == authority@
            && !old(todo_account).marked),
        repo_account.authority@ != authority@ || old(todo_account).authority@ != authority@
            ==> r == Err::<(), TodoError>(TodoError::Unauthorized),
        repo_account.authority@ == authority@ && old(todo_account).authority@ == authority@
            && old(todo_account).marked
            ==> r == Err::<(), TodoError>(TodoError::AlreadyMarked),
        r is Err ==> *final(todo_account) == *old(todo_account),
        r is Ok ==> final(todo_account).marked
            && final(todo_account).authority@ == old(todo_account).authority@
            && final(todo_account).content@ == old(todo_account).content@,
{
    if !repo_account.authority.eq_id(authority) || !todo_account.authority.eq_id(authority) {
        return Err(TodoError::Unauthorized);
    }
    if todo_account.marked {
        return Err(TodoError::AlreadyMarked);
    }
    todo_account.marked = true;
    Ok(())
}

/// Removes a to-do item: the caller must own both the repository and the
/// item. The live count moves down by one with checked arithmetic while the
/// creation counter keeps its value, so the destroyed index is never reused;
/// the runtime reclaims the item's slot afterwards.
pub fn remove_todo(repo_account: &mut UserRepos, todo_account: &UserTickets,
    authority: &AccountId) -> (r: Result<(), TodoError>)
    ensures
        r is Ok <==> (old(repo_account).authority@ == authority@
            && todo_account.authority@ == authority@ && old(repo_account).todo_count > 0),
        old(repo_account).authority@ != authority@ || todo_account.authority@ != authority@
            ==> r == Err::<(), TodoError>(TodoError::Unauthorized),
        old(repo_account).authority@ == authority@ && todo_account.authority@ == authority@
            && old(repo_account).todo_count == 0
            ==> r == Err::<(), TodoError>(TodoError::CounterUnderflow),
        r is Err ==> *final(repo_account) == *old(repo_account),
        r is Ok ==> todo_removed(*old(repo_account), *final(repo_account)),
{
    if !repo_account.authority.eq_id(authority) || !todo_account.authority.eq_id(authority) {
        return Err(TodoError::Unauthorized);
    }
    if repo_account.todo_count == 0 {
        return Err(TodoError::CounterUnderflow);
    }
    repo_account.todo_count = repo_account.todo_count - 1;
    Ok(())
}

} // verus!
