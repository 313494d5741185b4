//! The address deriver: every protected record lives at a storage slot whose
//! address is a pure function of a namespace tag, an owner identity and a
//! numeric index. Callers never supply a trusted address; they supply the
//! triple and the library re-derives and compares.

use vstd::prelude::*;

use crate::error::TodoError;
use crate::states::AccountId;
use crate::states::bytes_eq;

verus! {

/// The derived address and bump for a seed list under a program identity, as
/// the runtime's derivation primitive computes them. The result depends on
/// the seeds and the program identity alone; `None` means no bump yields a
/// valid address for these seeds.
pub uninterp spec fn pda_of(seeds: Seq<Seq<u8>>, program_id: Seq<u8>) -> Option<(Seq<u8>, u8)>;

/// Relies on `anchor_lang::prelude::Pubkey::try_find_program_address`
/// (`solana_address::Address::try_find_program_address`): a deterministic,
/// non-panicking derivation of a 32-byte program-derived address and its bump
/// from a seed list and a 32-byte program identity.
#[verifier::external_body]
fn try_pda(seeds: &Vec<Vec<u8>>, program_id: &Vec<u8>) -> (r: Option<(Vec<u8>, u8)>)
    requires
        program_id@.len() == 32,
    ensures
        r is Some <==> pda_of(seeds@.map_values(|s: Vec<u8>| s@), program_id@) is Some,
        r matches Some(p) ==> pda_of(seeds@.map_values(|s: Vec<u8>| s@), program_id@)
            matches Some(q) && p.0@ == q.0 && p.1 == q.1 && p.0@.len() == 32,
{
    let arr: [u8; 32] = program_id.as_slice().try_into().unwrap();
    let pk = anchor_lang::prelude::Pubkey::new_from_array(arr);
    let refs: Vec<&[u8]> = seeds.iter().map(|s| s.as_slice()).collect();
    anchor_lang::prelude::Pubkey::try_find_program_address(&refs, &pk)
        .map(|(a, b)| (a.to_bytes().to_vec(), b))
}

/// The namespace tag of user-profile slots, `USER_STATE`.
pub open spec fn spec_user_tag() -> Seq<u8> {
    seq![85u8, 83u8, 69u8, 82u8, 95u8, 83u8, 84u8, 65u8, 84u8, 69u8]
}

/// The namespace tag of repository slots, `REPO_STATE`.
pub open spec fn spec_repo_tag() -> Seq<u8> {
    seq![82u8, 69u8, 80u8, 79u8, 95u8, 83u8, 84u8, 65u8, 84u8, 69u8]
}

/// The namespace tag of to-do slots, `TODO_STATE`.
pub open spec fn spec_todo_tag() -> Seq<u8> {
    seq![84u8, 79u8, 68u8, 79u8, 95u8, 83u8, 84u8, 65u8, 84u8, 69u8]
}

/// The seed that names the custody authority, `authority`.
pub open spec fn spec_authority_seed() -> Seq<u8> {
    seq![97u8, 117u8, 116u8, 104u8, 111u8, 114u8, 105u8, 116u8, 121u8]
}

/// The seed prefix of escrow-receipt slots, `state`.
pub open spec fn spec_state_seed() -> Seq<u8> {
    seq![115u8, 116u8, 97u8, 116u8, 101u8]
}

/// The user-profile namespace tag as bytes.
pub fn user_tag() -> (r: Vec<u8>)
    ensures
        r@ == spec_user_tag(),
{
    let v = vec![85u8, 83u8, 69u8, 82u8, 95u8, 83u8, 84u8, 65u8, 84u8, 69u8];
    proof {
        assert(v@ =~= spec_user_tag());
    }
    v
}

/// The repository namespace tag as bytes.
pub fn repo_tag() -> (r: Vec<u8>)
    ensures
        r@ == spec_repo_tag(),
{
    let v = vec![82u8, 69u8, 80u8, 79u8, 95u8, 83u8, 84u8, 65u8, 84u8, 69u8];
    proof {
        assert(v@ =~= spec_repo_tag());
    }
    v
}

/// The to-do namespace tag as bytes.
pub fn todo_tag() -> (r: Vec<u8>)
    ensures
        r@ == spec_todo_tag(),
{
    let v = vec![84u8, 79u8, 68u8, 79u8, 95u8, 83u8, 84u8, 65u8, 84u8, 69u8];
    proof {
        assert(v@ =~= spec_todo_tag());
    }
    v
}

/// Copies a byte string.
pub fn clone_bytes(v: &Vec<u8>) -> (r: Vec<u8>)
    ensures
        r@ == v@,
{
    let mut out: Vec<u8> = Vec::new();
    let mut i: usize = 0;
    while i < v.len()
        invariant
            0 <= i <= v@.len(),
            out@ =~= v@.subrange(0, i as int),
        decreases v@.len() - i,
    {
        out.push(v[i]);
        i += 1;
    }
    proof {
        assert(out@ =~= v@);
    }
    out
}

/// The seed list of a record slot: namespace tag, owner identity, index.
pub open spec fn record_seeds(tag: Seq<u8>, owner: Seq<u8>, index: u8) -> Seq<Seq<u8>> {
    seq![tag, owner, seq![index]]
}

/// Derives the address and bump of the record slot for
/// (`tag`, `owner`, `index`) under `program_id`.
pub fn derive_record_address(tag: Vec<u8>, owner: &AccountId, index: u8, program_id: &Vec<u8>)
    -> (r: Option<(Vec<u8>, u8)>)
    requires
        program_id@.len() == 32,
    ensures
        ({
            let m = pda_of(record_seeds(tag@, owner@, index), program_id@);
            &&& r is Some <==> m is Some
            &&& (r matches Some(p) ==> m matches Some(q) && p.0@ == q.0 && p.1 == q.1
                && p.0@.len() == 32)
        }),
{
    let ghost tag_view = tag@;
    let mut seeds: Vec<Vec<u8>> = Vec::new();
    seeds.push(tag);
    seeds.push(clone_bytes(&owner.bytes));
    let mut idx: Vec<u8> = Vec::new();
    idx.push(index);
    seeds.push(idx);
    proof {
        assert(seeds@.map_values(|s: Vec<u8>| s@) =~= record_seeds(tag_view, owner@, index));
    }
    try_pda(&seeds, program_id)
}

/// Derives the address and bump of the custody authority, seeded by the
/// literal `authority` alone.
pub fn derive_vault_authority(program_id: &Vec<u8>) -> (r: Option<(Vec<u8>, u8)>)
    requires
        program_id@.len() == 32,
    ensures
        ({
            let m = pda_of(seq![spec_authority_seed()], program_id@);
            &&& r is Some <==> m is Some
            &&& (r matches Some(p) ==> m matches Some(q) && p.0@ == q.0 && p.1 == q.1
                && p.0@.len() == 32)
        }),
{
    let seed = vec![97u8, 117u8, 116u8, 104u8, 111u8, 114u8, 105u8, 116u8, 121u8];
    let mut seeds: Vec<Vec<u8>> = Vec::new();
    seeds.push(seed);
    proof {
        assert(seeds@.map_values(|s: Vec<u8>| s@) =~= seq![spec_authority_seed()]);
    }
    try_pda(&seeds, program_id)
}

/// Derives the address and bump of the escrow-receipt slot keyed by
/// (`state`, `random_seed`).
pub fn derive_escrow_address(random_seed: u64, program_id: &Vec<u8>)
    -> (r: Option<(Vec<u8>, u8)>)
    requires
        program_id@.len() == 32,
    ensures
        ({
            let m = pda_of(
                seq![spec_state_seed(), vstd::bytes::spec_u64_to_le_bytes(random_seed)],
                program_id@,
            );
            &&& r is Some <==> m is Some
            &&& (r matches Some(p) ==> m matches Some(q) && p.0@ == q.0 && p.1 == q.1
                && p.0@.len() == 32)
        }),
{
    let prefix = vec![115u8, 116u8, 97u8, 116u8, 101u8];
    let mut seeds: Vec<Vec<u8>> = Vec::new();
    seeds.push(prefix);
    seeds.push(vstd::bytes::u64_to_le_bytes(random_seed));
    proof {
        assert(seeds@.map_values(|s: Vec<u8>| s@) =~= seq![
            spec_state_seed(),
            vstd::bytes::spec_u64_to_le_bytes(random_seed),
        ]);
    }
    try_pda(&seeds, program_id)
}

/// The derivation bump for an arbitrary seed list, or `None` where the
/// primitive finds no valid address.
pub fn bump(seeds: &Vec<Vec<u8>>, program_id: &Vec<u8>) -> (r: Option<u8>)
    requires
        program_id@.len() == 32,
    ensures
        ({
            let m = pda_of(seeds@.map_values(|s: Vec<u8>| s@), program_id@);
            &&& r is Some <==> m is Some
            &&& (r matches Some(b) ==> m matches Some(q) && b == q.1)
        }),
{
    match try_pda(seeds, program_id) {
        Some(p) => Some(p.1),
        None => None,
    }
}

/// Re-derives the record address for (`tag`, `owner`, `index`) and compares it
/// with a caller-supplied one: the supplied address is accepted only if it
/// equals the derived address, and the derivation bump is returned.
pub fn verify_derived(
    tag: Vec<u8>,
    owner: &AccountId,
    index: u8,
    program_id: &Vec<u8>,
    supplied: &Vec<u8>,
) -> (r: Result<u8, TodoError>)
    requires
        program_id@.len() == 32,
    ensures
        ({
            let m = pda_of(record_seeds(tag@, owner@, index), program_id@);
            &&& (r matches Ok(b) ==> m matches Some(q) && q.0 == supplied@ && q.1 == b)
            &&& (r is Err ==> r == Err::<u8, TodoError>(TodoError::AddressMismatch)
                && (m matches Some(q) ==> q.0 != supplied@))
        }),
{
    match derive_record_address(tag, owner, index, program_id) {
        Some(p) => {
            if bytes_eq(p.0.as_slice(), supplied.as_slice()) {
                Ok(p.1)
            } else {
                Err(TodoError::AddressMismatch)
            }
        },
        None => Err(TodoError::AddressMismatch),
    }
}

} // verus!
