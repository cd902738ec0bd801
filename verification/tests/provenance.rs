use agent_identity::provenance::{
    bytes_equal, operation_attests, parse_header, read_u16_le, region_equals,
    verify_ed25519_signature, Operation, SignatureOffsets,
};
use agent_identity::AgentIdentityError;
use anchor_lang::prelude::Pubkey;
use anchor_lang::solana_program::ed25519_program;
use anchor_lang::solana_program::sysvar::instructions::{
    construct_instructions_data, store_current_index, BorrowedInstruction,
};

const KEY: [u8; 32] = [0x4b; 32];
const SIGNATURE: [u8; 64] = [0x5c; 64];
const MESSAGE: [u8; 5] = [1, 2, 3, 4, 5];

fn le(x: u16) -> [u8; 2] {
    [(x & 0xff) as u8, (x >> 8) as u8]
}

/// Data of a verification instruction: header, then signature, key, message.
fn verification_data(signature: &[u8], key: &[u8], message: &[u8]) -> Vec<u8> {
    let mut data = vec![1u8, 0];
    data.extend_from_slice(&le(16));
    data.extend_from_slice(&le(0xFFFF));
    data.extend_from_slice(&le(16 + 64));
    data.extend_from_slice(&le(0xFFFF));
    data.extend_from_slice(&le(16 + 64 + 32));
    data.extend_from_slice(&le(message.len() as u16));
    data.extend_from_slice(&le(0xFFFF));
    data.extend_from_slice(signature);
    data.extend_from_slice(key);
    data.extend_from_slice(message);
    data
}

fn verifier_operation(data: Vec<u8>) -> Operation {
    Operation { program_id: ed25519_program::ID.to_bytes(), data }
}

fn good_operation() -> Operation {
    verifier_operation(verification_data(&SIGNATURE, &KEY, &MESSAGE))
}

fn attests(operation: &Operation) -> bool {
    operation_attests(operation, &KEY, &MESSAGE, &SIGNATURE)
}

/// The serialised list of `operations`, with `current` as the index of the
/// operation being run.
fn instruction_list(operations: &[(Pubkey, Vec<u8>)], current: u16) -> Vec<u8> {
    let borrowed: Vec<BorrowedInstruction> = operations
        .iter()
        .map(|(program_id, data)| BorrowedInstruction { program_id, accounts: vec![], data })
        .collect();
    let mut list = construct_instructions_data(&borrowed);
    store_current_index(&mut list, current);
    list
}

fn other_program() -> Pubkey {
    Pubkey::new_from_array([0x77; 32])
}

#[test]
fn matching_inline_operation_attests() {
    assert!(attests(&good_operation()));
}

#[test]
fn operation_of_another_program_attests_nothing() {
    let mut operation = good_operation();
    operation.program_id = [0x77; 32];
    assert!(!attests(&operation));
    operation.program_id = ed25519_program::ID.to_bytes();
    operation.program_id[31] ^= 1;
    assert!(!attests(&operation));
}

#[test]
fn short_data_attests_nothing() {
    assert!(!attests(&verifier_operation(vec![])));
    assert!(!attests(&verifier_operation(vec![1])));
    let full = verification_data(&SIGNATURE, &KEY, &MESSAGE);
    assert!(!attests(&verifier_operation(full[..15].to_vec())));
    assert!(!attests(&verifier_operation(full[..16].to_vec())));
}

#[test]
fn signature_count_must_be_one() {
    let mut operation = good_operation();
    operation.data[0] = 0;
    assert!(!attests(&operation));
    operation.data[0] = 2;
    assert!(!attests(&operation));
    operation.data[0] = 1;
    assert!(attests(&operation));
}

#[test]
fn padding_byte_is_ignored() {
    let mut operation = good_operation();
    operation.data[1] = 0xee;
    assert!(attests(&operation));
}

#[test]
fn signature_borrowed_from_another_operation_is_rejected() {
    let mut operation = good_operation();
    operation.data[4] = 0;
    operation.data[5] = 0;
    assert!(!attests(&operation));
    operation.data[4] = 0xfe;
    operation.data[5] = 0xff;
    assert!(!attests(&operation));
}

#[test]
fn key_borrowed_from_another_operation_is_rejected() {
    let mut operation = good_operation();
    operation.data[8] = 0;
    operation.data[9] = 0;
    assert!(!attests(&operation));
    operation.data[8] = 0xff;
    operation.data[9] = 0xfe;
    assert!(!attests(&operation));
}

#[test]
fn message_borrowed_from_another_operation_is_rejected() {
    let mut operation = good_operation();
    operation.data[14] = 1;
    operation.data[15] = 0;
    assert!(!attests(&operation));
    operation.data[14] = 0xff;
    operation.data[15] = 0x7f;
    assert!(!attests(&operation));
}

#[test]
fn regions_must_lie_within_the_data() {
    let full = verification_data(&SIGNATURE, &KEY, &MESSAGE);
    let mut cut = full.clone();
    cut.pop();
    assert!(!attests(&verifier_operation(cut)));

    let mut far_signature = full.clone();
    far_signature[2..4].copy_from_slice(&le(0xFFF0));
    assert!(!attests(&verifier_operation(far_signature)));

    let mut far_key = full.clone();
    far_key[6..8].copy_from_slice(&le(0xFFF0));
    assert!(!attests(&verifier_operation(far_key)));

    let mut far_message = full.clone();
    far_message[10..12].copy_from_slice(&le(0xFFF0));
    assert!(!attests(&verifier_operation(far_message)));
}

#[test]
fn regions_may_end_exactly_at_the_end_of_the_data() {
    let data = verification_data(&SIGNATURE, &KEY, &MESSAGE);
    assert_eq!(data.len(), 16 + 64 + 32 + 5);
    assert!(attests(&verifier_operation(data)));
}

#[test]
fn regions_may_lie_anywhere_in_the_data() {
    // message first, then key, then signature, with a gap before each
    let mut data = vec![1u8, 0];
    data.extend_from_slice(&le(70));
    data.extend_from_slice(&le(0xFFFF));
    data.extend_from_slice(&le(30));
    data.extend_from_slice(&le(0xFFFF));
    data.extend_from_slice(&le(20));
    data.extend_from_slice(&le(5));
    data.extend_from_slice(&le(0xFFFF));
    data.resize(140, 0xab);
    data[20..25].copy_from_slice(&MESSAGE);
    data[30..62].copy_from_slice(&KEY);
    data[70..134].copy_from_slice(&SIGNATURE);
    assert!(attests(&verifier_operation(data)));
}

#[test]
fn different_signature_is_rejected() {
    let mut wrong = SIGNATURE;
    wrong[63] ^= 1;
    assert!(!attests(&verifier_operation(verification_data(&wrong, &KEY, &MESSAGE))));
    wrong = SIGNATURE;
    wrong[0] ^= 1;
    assert!(!attests(&verifier_operation(verification_data(&wrong, &KEY, &MESSAGE))));
}

#[test]
fn different_key_is_rejected() {
    let mut wrong = KEY;
    wrong[31] ^= 0x80;
    assert!(!attests(&verifier_operation(verification_data(&SIGNATURE, &wrong, &MESSAGE))));
}

#[test]
fn different_message_is_rejected() {
    let mut wrong = MESSAGE;
    wrong[2] = 9;
    assert!(!attests(&verifier_operation(verification_data(&SIGNATURE, &KEY, &wrong))));
}

#[test]
fn message_of_another_length_is_rejected() {
    let longer = [1u8, 2, 3, 4, 5, 6];
    assert!(!attests(&verifier_operation(verification_data(&SIGNATURE, &KEY, &longer))));
    let shorter = [1u8, 2, 3, 4];
    assert!(!attests(&verifier_operation(verification_data(&SIGNATURE, &KEY, &shorter))));
    // a declared size shorter than the bytes present still compares by size
    let mut operation = good_operation();
    operation.data[12] = 4;
    assert!(!attests(&operation));
}

#[test]
fn empty_message_can_be_attested() {
    let operation = verifier_operation(verification_data(&SIGNATURE, &KEY, &[]));
    assert!(operation_attests(&operation, &KEY, &[], &SIGNATURE));
    assert!(!operation_attests(&operation, &KEY, &MESSAGE, &SIGNATURE));
}

#[test]
fn header_fields_are_read_little_endian() {
    let data = [1u8, 0, 0x10, 0x00, 0xff, 0xff, 0x50, 0x01, 0xfe, 0xff, 0x70, 0x02, 0x05, 0x03, 0x34, 0x12];
    let expected = SignatureOffsets {
        signature_offset: 0x0010,
        signature_instruction_index: 0xffff,
        public_key_offset: 0x0150,
        public_key_instruction_index: 0xfffe,
        message_data_offset: 0x0270,
        message_data_size: 0x0305,
        message_instruction_index: 0x1234,
    };
    assert_eq!(parse_header(&data), Some(expected));
    assert!(!expected.is_inline());
}

#[test]
fn header_needs_sixteen_bytes_and_one_signature() {
    assert_eq!(parse_header(&[1u8; 15]), None);
    assert!(parse_header(&[1u8; 16]).is_some());
    assert_eq!(parse_header(&[0u8; 16]), None);
    assert_eq!(parse_header(&[2u8; 16]), None);
    assert_eq!(parse_header(&[]), None);
}

#[test]
fn offsets_fit_checks_each_region() {
    let offsets = SignatureOffsets {
        signature_offset: 16,
        signature_instruction_index: 0xffff,
        public_key_offset: 80,
        public_key_instruction_index: 0xffff,
        message_data_offset: 112,
        message_data_size: 5,
        message_instruction_index: 0xffff,
    };
    assert!(offsets.is_inline());
    assert!(offsets.fits(117));
    assert!(offsets.fits(1000));
    assert!(!offsets.fits(116));
    assert!(!offsets.fits(0));
    let wide = SignatureOffsets { message_data_offset: 0xffff, message_data_size: 0xffff, ..offsets };
    assert!(!wide.fits(0x1_0000));
    assert!(wide.fits(0x1_fffe));
    assert!(!wide.fits(0x1_fffd));
}

#[test]
fn read_u16_le_reads_low_byte_first() {
    assert_eq!(read_u16_le(&[0x34, 0x12], 0), 0x1234);
    assert_eq!(read_u16_le(&[0, 0xff, 0xff], 1), 0xffff);
    assert_eq!(read_u16_le(&[9, 0, 0], 1), 0);
    assert_eq!(read_u16_le(&[9, 1, 0], 1), 1);
    assert_eq!(read_u16_le(&[9, 0, 1], 1), 256);
}

#[test]
fn bytes_equal_compares_length_and_content() {
    assert!(bytes_equal(&[], &[]));
    assert!(bytes_equal(&[1, 2, 3], &[1, 2, 3]));
    assert!(!bytes_equal(&[1, 2, 3], &[1, 2, 4]));
    assert!(!bytes_equal(&[1, 2, 3], &[1, 2]));
    assert!(!bytes_equal(&[], &[0]));
}

#[test]
fn region_equals_compares_the_region_only() {
    let data = [9u8, 1, 2, 3, 9];
    assert!(region_equals(&data, 1, &[1, 2, 3]));
    assert!(!region_equals(&data, 0, &[1, 2, 3]));
    assert!(region_equals(&data, 5, &[]));
    assert!(region_equals(&data, 0, &data));
    assert!(!region_equals(&data, 2, &[2, 3, 8]));
}

#[test]
fn verifier_address_is_the_one_of_the_outside_crate() {
    let mut operation = good_operation();
    assert!(attests(&operation));
    let expected: [u8; 32] = [
        3, 125, 70, 214, 124, 147, 251, 190, 18, 249, 66, 143, 131, 141, 64, 255, 5, 112, 116,
        73, 39, 244, 138, 100, 252, 202, 112, 68, 128, 0, 0, 0,
    ];
    assert_eq!(ed25519_program::ID.to_bytes(), expected);
    operation.program_id = expected;
    assert!(attests(&operation));
}

#[test]
fn provenance_is_confirmed_by_a_preceding_operation() {
    let list = instruction_list(
        &[
            (ed25519_program::ID, verification_data(&SIGNATURE, &KEY, &MESSAGE)),
            (other_program(), vec![1, 2, 3]),
        ],
        1,
    );
    assert_eq!(verify_ed25519_signature(&list, &KEY, &MESSAGE, &SIGNATURE), Ok(()));
}

#[test]
fn provenance_is_found_behind_other_operations() {
    let list = instruction_list(
        &[
            (other_program(), vec![]),
            (ed25519_program::ID, verification_data(&[0; 64], &KEY, &MESSAGE)),
            (other_program(), verification_data(&SIGNATURE, &KEY, &MESSAGE)),
            (ed25519_program::ID, verification_data(&SIGNATURE, &KEY, &MESSAGE)),
            (other_program(), vec![9; 40]),
        ],
        4,
    );
    assert_eq!(verify_ed25519_signature(&list, &KEY, &MESSAGE, &SIGNATURE), Ok(()));
}

#[test]
fn operation_at_or_after_the_current_one_does_not_count() {
    let operations = [
        (other_program(), vec![1, 2, 3]),
        (ed25519_program::ID, verification_data(&SIGNATURE, &KEY, &MESSAGE)),
    ];
    let failed = Err(AgentIdentityError::Ed25519VerificationFailed);
    assert_eq!(
        verify_ed25519_signature(&instruction_list(&operations, 0), &KEY, &MESSAGE, &SIGNATURE),
        failed
    );
    assert_eq!(
        verify_ed25519_signature(&instruction_list(&operations, 1), &KEY, &MESSAGE, &SIGNATURE),
        failed
    );
    assert_eq!(
        verify_ed25519_signature(&instruction_list(&operations, 2), &KEY, &MESSAGE, &SIGNATURE),
        Ok(())
    );
}

#[test]
fn provenance_fails_without_a_matching_operation() {
    let list = instruction_list(
        &[
            (ed25519_program::ID, verification_data(&SIGNATURE, &KEY, &[1, 2, 3, 4, 6])),
            (other_program(), vec![]),
        ],
        1,
    );
    assert_eq!(
        verify_ed25519_signature(&list, &KEY, &MESSAGE, &SIGNATURE),
        Err(AgentIdentityError::Ed25519VerificationFailed)
    );
}

#[test]
fn provenance_fails_on_borrowed_bytes_even_if_they_match() {
    let mut data = verification_data(&SIGNATURE, &KEY, &MESSAGE);
    data[14] = 0;
    data[15] = 0;
    let list = instruction_list(&[(ed25519_program::ID, data), (other_program(), vec![])], 1);
    assert_eq!(
        verify_ed25519_signature(&list, &KEY, &MESSAGE, &SIGNATURE),
        Err(AgentIdentityError::Ed25519VerificationFailed)
    );
}

#[test]
fn provenance_fails_when_nothing_precedes() {
    let list = instruction_list(&[(other_program(), vec![])], 0);
    assert_eq!(
        verify_ed25519_signature(&list, &KEY, &MESSAGE, &SIGNATURE),
        Err(AgentIdentityError::Ed25519VerificationFailed)
    );
}

#[test]
fn list_too_short_for_an_index_is_missing() {
    let missing = Err(AgentIdentityError::MissingEd25519Instruction);
    assert_eq!(verify_ed25519_signature(&[], &KEY, &MESSAGE, &SIGNATURE), missing);
    assert_eq!(verify_ed25519_signature(&[1], &KEY, &MESSAGE, &SIGNATURE), missing);
}

#[test]
fn unreadable_entries_are_passed_over() {
    // a current index beyond the operations that the list holds
    let list = instruction_list(
        &[(ed25519_program::ID, verification_data(&SIGNATURE, &KEY, &MESSAGE))],
        9,
    );
    assert_eq!(verify_ed25519_signature(&list, &KEY, &MESSAGE, &SIGNATURE), Ok(()));
    // nothing but an index: every entry is unreadable
    assert_eq!(
        verify_ed25519_signature(&[7, 0], &KEY, &MESSAGE, &SIGNATURE),
        Err(AgentIdentityError::Ed25519VerificationFailed)
    );
    assert_eq!(
        verify_ed25519_signature(&[0xff, 0xff], &KEY, &MESSAGE, &SIGNATURE),
        Err(AgentIdentityError::Ed25519VerificationFailed)
    );
}
