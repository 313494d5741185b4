//! The record types of the ownership chain (user profile, repository, to-do
//! item) and the write-once escrow receipt, together with their
//! well-formedness predicates.

use vstd::prelude::*;

verus! {

/// An account or caller identity: the raw bytes of a public key.
#[derive(Debug, PartialEq, Eq)]
pub struct AccountId {
    pub bytes: Vec<u8>,
}

impl View for AccountId {
    type V = Seq<u8>;

    open spec fn view(&self) -> Seq<u8> {
        self.bytes@
    }
}

/// Compares two byte strings for equality.
pub fn bytes_eq(a: &[u8], b: &[u8]) -> (r: bool)
    ensures
        r == (a@ == b@),
{
    if a.len() != b.len() {
        return false;
    }
    let mut i: usize = 0;
    while i < a.len()
        invariant
            0 <= i <= a@.len(),
            a@.len() == b@.len(),
            forall|j: int| 0 <= j < i ==> a@[j] == b@[j],
        decreases a@.len() - i,
    {
        if a[i] != b[i] {
            return false;
        }
        i += 1;
    }
    proof {
        assert(a@ =~= b@);
    }
    true
}

impl AccountId {
    /// Compares two identities for equality.
    pub fn eq_id(&self, other: &AccountId) -> (r: bool)
        ensures
            r == (self@ == other@),
    {
        bytes_eq(self.bytes.as_slice(), other.bytes.as_slice())
    }
}

/// The root record of an owner's chain: one per owner identity.
#[derive(Debug, PartialEq, Eq)]
pub struct UserProfile {
    /// The owner identity; every mutation below this record must be made by it.
    pub authority: AccountId,
    /// The owner's external handle.
    pub github: String,
    /// Monotonic creation counter: the index the next repository will take.
    pub last_repo: u8,
    /// Live-record counter; repositories are never destroyed, so it tracks `last_repo`.
    pub repo_count: u8,
}

/// A repository record, addressed by (owner, repository index).
#[derive(Debug, PartialEq, Eq)]
pub struct UserRepos {
    /// The owner identity, which must equal the profile's.
    pub authority: AccountId,
    /// The repository's name.
    pub repo: String,
    /// Monotonic creation counter: the index the next to-do item will take.
    pub last_todo: u8,
    /// Live to-do count; decremented on removal, while `last_todo` never is.
    pub todo_count: u8,
}

/// A to-do record, addressed by (owner, to-do index).
#[derive(Debug, PartialEq, Eq)]
pub struct UserTickets {
    /// The owner identity, which must equal the repository's.
    pub authority: AccountId,
    /// The to-do item's text.
    pub content: String,
    /// Whether the item was completed; a one-way transition.
    pub marked: bool,
}

/// The write-once escrow receipt created alongside an escrowed to-do item.
#[derive(Debug, PartialEq, Eq)]
pub struct EscrowState {
    /// The seed that keys this receipt's storage slot.
    pub random_seed: u64,
    /// The depositor's identity.
    pub initializer_key: AccountId,
    /// Address of the account the deposit was drawn from.
    pub initializer_deposit_token_account: AccountId,
    /// Address of the account a future counter-transfer would pay into.
    pub initializer_receive_token_account: AccountId,
    /// The amount moved into custody.
    pub initializer_amount: u64,
    /// The counter-amount recorded for a future exchange.
    pub taker_amount: u64,
    /// The derivation bump of the custody authority's address.
    pub vault_authority_bump: u8,
}

impl EscrowState {
    /// Storage footprint of one receipt: discriminator prefix plus fields.
    pub fn space() -> (r: usize)
        ensures
            r == 129,
    {
        8 + 121
    }
}

/// Whether a storage slot's raw data is all zeroes, the last byte left
/// unexamined: an all-zero slot holds no record yet.
pub fn is_zero_account(account_data: &[u8]) -> (r: bool)
    requires
        account_data@.len() >= 1,
    ensures
        r == (forall|i: int| 0 <= i < account_data@.len() - 1 ==> account_data@[i] == 0),
{
    let len = account_data.len();
    let mut is_zero = true;
    let mut i: usize = 0;
    while i < len - 1
        invariant
            1 <= len == account_data@.len(),
            0 <= i <= len - 1,
            is_zero == (forall|j: int| 0 <= j < i ==> account_data@[j] == 0),
        decreases len - 1 - i,
    {
        if account_data[i] != 0 {
            is_zero = false;
        }
        i += 1;
    }
    is_zero
}

/// A freshly initialized profile: caller becomes owner, counters start at zero.
pub open spec fn profile_fresh(p: UserProfile, authority: Seq<u8>, github: Seq<char>) -> bool {
    &&& p.authority@ == authority
    &&& p.github@ == github
    &&& p.last_repo == 0
    &&& p.repo_count == 0
}

/// Profile well-formedness: repositories are never destroyed, so the live
/// count always equals the creation counter.
pub open spec fn profile_wf(p: UserProfile) -> bool {
    p.repo_count == p.last_repo
}

/// Repository well-formedness: to-do slots are never reused, so the live
/// count can never exceed the creation counter.
pub open spec fn repo_wf(r: UserRepos) -> bool {
    r.todo_count <= r.last_todo
}

} // verus!
