use clever_todo::addr::bump;
use clever_todo::addr::derive_escrow_address;
use clever_todo::addr::derive_record_address;
use clever_todo::addr::derive_vault_authority;
use clever_todo::addr::repo_tag;
use clever_todo::addr::todo_tag;
use clever_todo::addr::user_tag;
use clever_todo::addr::verify_derived;
use clever_todo::error::TodoError;
use clever_todo::states::bytes_eq;
use clever_todo::states::is_zero_account;
use clever_todo::states::AccountId;

fn owner() -> AccountId {
    AccountId { bytes: vec![7u8; 32] }
}

fn program_id() -> Vec<u8> {
    vec![3u8; 32]
}

#[test]
fn tags_spell_their_namespaces() {
    assert_eq!(user_tag(), b"USER_STATE".to_vec());
    assert_eq!(repo_tag(), b"REPO_STATE".to_vec());
    assert_eq!(todo_tag(), b"TODO_STATE".to_vec());
}

#[test]
fn derivation_is_deterministic() {
    let a = derive_record_address(user_tag(), &owner(), 0, &program_id()).unwrap();
    let b = derive_record_address(user_tag(), &owner(), 0, &program_id()).unwrap();
    assert_eq!(a.0, b.0);
    assert_eq!(a.1, b.1);
    assert_eq!(a.0.len(), 32);
}

#[test]
fn derivation_separates_tags_owners_and_indices() {
    let base = derive_record_address(repo_tag(), &owner(), 0, &program_id()).unwrap();
    let other_tag = derive_record_address(todo_tag(), &owner(), 0, &program_id()).unwrap();
    let other_owner = derive_record_address(
        repo_tag(),
        &AccountId { bytes: vec![8u8; 32] },
        0,
        &program_id(),
    )
    .unwrap();
    let other_index = derive_record_address(repo_tag(), &owner(), 1, &program_id()).unwrap();
    assert_ne!(base.0, other_tag.0);
    assert_ne!(base.0, other_owner.0);
    assert_ne!(base.0, other_index.0);
    // The derived slot is a genuine address, not any seed handed back.
    assert_ne!(base.0, owner().bytes);
    assert_ne!(base.0, program_id());
}

#[test]
fn verify_derived_accepts_the_derived_address_only() {
    let derived = derive_record_address(repo_tag(), &owner(), 2, &program_id()).unwrap();
    let ok = verify_derived(repo_tag(), &owner(), 2, &program_id(), &derived.0);
    assert_eq!(ok, Ok(derived.1));
    let mut forged = derived.0.clone();
    forged[0] = forged[0].wrapping_add(1);
    let bad = verify_derived(repo_tag(), &owner(), 2, &program_id(), &forged);
    assert_eq!(bad, Err(TodoError::AddressMismatch));
}

#[test]
fn bump_matches_full_derivation() {
    let derived = derive_record_address(user_tag(), &owner(), 0, &program_id()).unwrap();
    let seeds: Vec<Vec<u8>> = vec![user_tag(), vec![7u8; 32], vec![0u8]];
    assert_eq!(bump(&seeds, &program_id()), Some(derived.1));
}

#[test]
fn vault_authority_and_escrow_slots_derive() {
    let vault = derive_vault_authority(&program_id()).unwrap();
    assert_eq!(vault.0.len(), 32);
    let one = derive_escrow_address(42, &program_id()).unwrap();
    let two = derive_escrow_address(42, &program_id()).unwrap();
    let other = derive_escrow_address(43, &program_id()).unwrap();
    assert_eq!(one.0, two.0);
    assert_ne!(one.0, other.0);
}

#[test]
fn zero_slot_means_no_record() {
    assert!(is_zero_account(&[0u8, 0u8, 0u8]));
    // The final byte is left unexamined.
    assert!(is_zero_account(&[0u8, 0u8, 5u8]));
    assert!(!is_zero_account(&[1u8, 0u8, 0u8]));
    assert!(is_zero_account(&[9u8]));
}

#[test]
fn byte_equality_is_exact() {
    assert!(bytes_eq(&[1u8, 2u8], &[1u8, 2u8]));
    assert!(!bytes_eq(&[1u8, 2u8], &[1u8, 3u8]));
    assert!(!bytes_eq(&[1u8, 2u8], &[1u8, 2u8, 3u8]));
    assert!(bytes_eq(&[], &[]));
}
