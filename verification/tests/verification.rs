use agent_identity::codec::build_declaration_message;
use agent_identity::verification::{
    chain_links_intact, coherence_is_consistent, head_digest_matches, verify_with_address,
    weights_in_range, ADDRESS_SEED,
};
use agent_identity::{declare, evolve, initialize, set_weights, verify, AgentIdentity};
use anchor_lang::prelude::Pubkey;
use anchor_lang::solana_program::ed25519_program;
use anchor_lang::solana_program::sysvar::instructions::{
    construct_instructions_data, store_current_index, BorrowedInstruction,
};

const OWNER: [u8; 32] = [0x0a; 32];
const PROGRAM: [u8; 32] = [0x50; 32];
const SIGNATURE: [u8; 64] = [0x5c; 64];

fn le(x: u16) -> [u8; 2] {
    [(x & 0xff) as u8, (x >> 8) as u8]
}

/// Address and bump of the record of `OWNER` under `PROGRAM`.
fn home() -> ([u8; 32], u8) {
    let (address, bump) = Pubkey::find_program_address(
        &["agent-identity".as_bytes(), &OWNER],
        &Pubkey::new_from_array(PROGRAM),
    );
    (address.to_bytes(), bump)
}

fn fresh(weights: &[u64]) -> AgentIdentity {
    let names = (0..weights.len()).map(|i| format!("dim{}", i)).collect();
    initialize(OWNER, home().1, 1_000, names, weights.to_vec(), [0x0b; 32]).unwrap().0
}

fn declare_at(identity: &mut AgentIdentity, slot: u64, index: u8, value: u64) {
    let message =
        build_declaration_message(&identity.authority, index, value, "c", &identity.current_hash);
    let mut data = vec![1u8, 0];
    data.extend_from_slice(&le(16));
    data.extend_from_slice(&le(0xFFFF));
    data.extend_from_slice(&le(80));
    data.extend_from_slice(&le(0xFFFF));
    data.extend_from_slice(&le(112));
    data.extend_from_slice(&le(message.len() as u16));
    data.extend_from_slice(&le(0xFFFF));
    data.extend_from_slice(&SIGNATURE);
    data.extend_from_slice(&identity.authority);
    data.extend_from_slice(&message);
    let verifier = ed25519_program::ID;
    let program = Pubkey::new_from_array(PROGRAM);
    let operations = [
        BorrowedInstruction { program_id: &verifier, accounts: vec![], data: &data },
        BorrowedInstruction { program_id: &program, accounts: vec![], data: &[] },
    ];
    let mut list = construct_instructions_data(&operations);
    store_current_index(&mut list, 1);
    declare(identity, &list, slot as i64, slot, index, value, "c".to_string(), SIGNATURE).unwrap();
}

fn with_declarations(n: u64) -> AgentIdentity {
    let mut identity = fresh(&[5000, 5000]);
    for k in 0..n {
        declare_at(&mut identity, 10 + 2 * k, (k % 2) as u8, 100 + k);
    }
    identity
}

fn code(identity: &AgentIdentity) -> u8 {
    let result = verify(identity, &home().0, &PROGRAM);
    assert_eq!(result.is_valid, result.error_code == 0);
    result.error_code
}

#[test]
fn address_seed_spells_agent_identity() {
    assert_eq!(&ADDRESS_SEED[..], "agent-identity".as_bytes());
}

#[test]
fn fresh_record_verifies() {
    let identity = fresh(&[5000, 5000]);
    let result = verify(&identity, &home().0, &PROGRAM);
    assert!(result.is_valid);
    assert_eq!(result.error_code, 0);
    assert_eq!(result.chain_length, 0);
    assert_eq!(result.continuity_score, 10_000);
    assert_eq!(result.coherence_score, 0);
    assert_eq!(result.stability_score, 10_000);
    assert_eq!(result.genesis_hash, [0; 32]);
    assert_eq!(result.current_hash, [0; 32]);
    assert_eq!(result.merkle_root, [0; 32]);
}

#[test]
fn verify_reports_the_record_metrics() {
    let mut identity = with_declarations(3);
    evolve(&mut identity, 1, vec![10_000, 0], 1_000).unwrap();
    let result = verify(&identity, &home().0, &PROGRAM);
    assert!(result.is_valid);
    assert_eq!(result.chain_length, 3);
    assert_eq!(result.continuity_score, identity.continuity_score);
    assert_eq!(result.continuity_score, 500_000 / 53);
    assert_eq!(result.coherence_score, identity.coherence_score);
    assert_eq!(result.stability_score, 10_000);
    assert_eq!(result.genesis_hash, identity.genesis_hash);
    assert_eq!(result.current_hash, identity.current_hash);
    assert_eq!(result.merkle_root, identity.merkle_root);
}

#[test]
fn verify_changes_nothing() {
    let identity = with_declarations(2);
    let before = format!("{:?}", identity);
    verify(&identity, &home().0, &PROGRAM);
    assert_eq!(format!("{:?}", identity), before);
}

#[test]
fn record_verifies_after_every_number_of_declarations() {
    let mut identity = fresh(&[5000, 5000]);
    assert_eq!(code(&identity), 0);
    for k in 0..11u64 {
        declare_at(&mut identity, 10 + 2 * k, (k % 2) as u8, 100 + k);
        assert_eq!(code(&identity), 0, "after {} declarations", k + 1);
        assert!(chain_links_intact(&identity));
        assert!(head_digest_matches(&identity));
    }
}

#[test]
fn record_verifies_after_mixed_operations() {
    let mut identity = with_declarations(5);
    evolve(&mut identity, 1, vec![-30_000, 12_345], 777).unwrap();
    assert_eq!(code(&identity), 0);
    set_weights(&mut identity, 2, vec![1, 2]).unwrap();
    assert_eq!(code(&identity), 0);
    declare_at(&mut identity, 100, 1, 9_999);
    assert_eq!(code(&identity), 0);
}

#[test]
fn record_at_another_address_fails_derivation() {
    let identity = fresh(&[5000, 5000]);
    let mut elsewhere = home().0;
    elsewhere[0] ^= 1;
    let result = verify(&identity, &elsewhere, &PROGRAM);
    assert!(!result.is_valid);
    assert_eq!(result.error_code, 1);
    assert_eq!(result.continuity_score, 10_000);
}

#[test]
fn record_with_another_bump_fails_derivation() {
    let mut identity = fresh(&[5000, 5000]);
    identity.bump = identity.bump.wrapping_sub(1);
    assert_eq!(code(&identity), 1);
}

#[test]
fn record_under_another_program_fails_derivation() {
    let identity = fresh(&[5000, 5000]);
    let result = verify(&identity, &home().0, &[0x51; 32]);
    assert_eq!(result.error_code, 1);
}

#[test]
fn record_of_another_owner_fails_derivation() {
    let mut identity = fresh(&[5000, 5000]);
    identity.authority[5] ^= 1;
    assert_eq!(code(&identity), 1);
}

#[test]
fn missing_derived_address_fails_derivation() {
    let identity = fresh(&[5000, 5000]);
    let result = verify_with_address(&identity, &home().0, None);
    assert_eq!(result.error_code, 1);
    assert!(!result.is_valid);
    let result = verify_with_address(&identity, &home().0, Some(home()));
    assert_eq!(result.error_code, 0);
    assert!(result.is_valid);
}

#[test]
fn weight_out_of_range_fails_the_range_check() {
    let mut identity = fresh(&[5000, 5000]);
    identity.weights[1] = 10_001;
    assert_eq!(code(&identity), 2);
    assert!(!weights_in_range(&identity));
    let mut identity = fresh(&[5000, 5000]);
    identity.self_model[0] = 10_001;
    assert_eq!(code(&identity), 2);
    let mut identity = fresh(&[5000, 5000]);
    identity.weights[0] = u64::MAX;
    identity.self_model[0] = u64::MAX;
    assert_eq!(code(&identity), 2);
}

#[test]
fn inactive_dimensions_are_not_range_checked() {
    let mut identity = fresh(&[5000, 5000]);
    identity.weights[2] = 10_001;
    identity.self_model[15] = u64::MAX;
    assert!(weights_in_range(&identity));
    assert_eq!(code(&identity), 0);
}

#[test]
fn broken_link_fails_the_chain_check() {
    for slot in 1..3usize {
        let mut identity = with_declarations(3);
        identity.declarations[slot].previous_hash[7] ^= 1;
        assert_eq!(code(&identity), 3, "slot {}", slot);
        assert!(!chain_links_intact(&identity));
    }
}

#[test]
fn first_declaration_must_point_at_the_zero_hash() {
    let mut identity = with_declarations(3);
    identity.declarations[0].previous_hash[0] = 1;
    assert_eq!(code(&identity), 3);
    let mut identity = with_declarations(4);
    identity.declarations[0].previous_hash[31] = 1;
    assert_eq!(code(&identity), 3);
}

#[test]
fn altered_declaration_breaks_the_link_of_its_successor() {
    let mut identity = with_declarations(3);
    identity.declarations[0].value += 1;
    assert_eq!(code(&identity), 3);
    let mut identity = with_declarations(3);
    identity.declarations[1].timestamp += 1;
    assert_eq!(code(&identity), 3);
}

#[test]
fn altered_signature_breaks_nothing() {
    let mut identity = with_declarations(3);
    identity.declarations[1].signature = [0; 64];
    assert_eq!(code(&identity), 0);
}

#[test]
fn oldest_retained_declaration_of_a_long_chain_is_not_held_to_a_predecessor() {
    // six declarations: slots hold 4, 5, 2, 3; the oldest is in slot 2
    let mut identity = with_declarations(6);
    identity.declarations[2].previous_hash = [0xee; 32];
    assert_eq!(code(&identity), 3);
    // its own link is unchecked, but altering it changes its digest, which
    // its successor points at
    let mut identity = with_declarations(6);
    assert!(chain_links_intact(&identity));
    identity.declarations[3].previous_hash[0] ^= 1;
    assert_eq!(code(&identity), 3);
    let mut identity = with_declarations(6);
    identity.declarations[0].previous_hash[0] ^= 1;
    assert_eq!(code(&identity), 3);
}

#[test]
fn altered_latest_declaration_fails_the_hash_check() {
    let mut identity = with_declarations(3);
    identity.declarations[2].value += 1;
    assert_eq!(code(&identity), 4);
    assert!(chain_links_intact(&identity));
    assert!(!head_digest_matches(&identity));
    let mut identity = with_declarations(6);
    identity.declarations[1].content_hash[3] ^= 1;
    assert_eq!(code(&identity), 4);
}

#[test]
fn altered_current_hash_fails_the_hash_check() {
    let mut identity = with_declarations(2);
    identity.current_hash[0] ^= 1;
    assert_eq!(code(&identity), 4);
    let mut identity = with_declarations(7);
    identity.current_hash = [0; 32];
    assert_eq!(code(&identity), 4);
}

#[test]
fn chain_is_not_checked_before_the_first_declaration() {
    let mut identity = fresh(&[5000, 5000]);
    identity.current_hash = [9; 32];
    identity.declarations[0].previous_hash = [8; 32];
    assert_eq!(code(&identity), 0);
}

#[test]
fn altered_chain_root_is_not_detected() {
    let mut identity = with_declarations(3);
    identity.merkle_root = [0; 32];
    assert_eq!(code(&identity), 0);
    identity.genesis_hash = [0; 32];
    assert_eq!(code(&identity), 0);
}

#[test]
fn coherence_score_may_be_off_by_one_hundred() {
    let mut identity = fresh(&[5000, 5000]);
    evolve(&mut identity, 1, vec![10_000, 10_000], 1_000).unwrap();
    assert_eq!(identity.coherence_score, 1371);
    identity.coherence_score = 1471;
    assert_eq!(code(&identity), 0);
    identity.coherence_score = 1271;
    assert_eq!(code(&identity), 0);
    assert!(coherence_is_consistent(&identity));
}

#[test]
fn coherence_score_off_by_more_fails_the_coherence_check() {
    let mut identity = fresh(&[5000, 5000]);
    evolve(&mut identity, 1, vec![10_000, 10_000], 1_000).unwrap();
    identity.coherence_score = 1472;
    assert_eq!(code(&identity), 5);
    identity.coherence_score = 1270;
    assert_eq!(code(&identity), 5);
    identity.coherence_score = u64::MAX;
    assert_eq!(code(&identity), 5);
    assert!(!coherence_is_consistent(&identity));
}

#[test]
fn declaration_can_leave_the_coherence_score_stale() {
    let mut identity = fresh(&[5000, 5000]);
    evolve(&mut identity, 1, vec![10_000, 10_000], 1_000).unwrap();
    declare_at(&mut identity, 10, 0, 7000);
    // stored 1371, recomputed 970: more than one hundred apart
    assert_eq!(code(&identity), 5);
    evolve(&mut identity, 2, vec![0, 0], 0).unwrap();
    assert_eq!(code(&identity), 0);
}

#[test]
fn first_failing_check_gives_the_code() {
    let mut identity = with_declarations(3);
    identity.coherence_score = 5_000;
    assert_eq!(code(&identity), 5);
    identity.current_hash[0] ^= 1;
    assert_eq!(code(&identity), 4);
    identity.declarations[1].previous_hash[0] ^= 1;
    assert_eq!(code(&identity), 3);
    identity.weights[0] = 10_001;
    assert_eq!(code(&identity), 2);
    identity.bump = identity.bump.wrapping_add(1);
    assert_eq!(code(&identity), 1);
}
