//! Signature provenance.
//!
//! A declaration carries a signature, but this library checks no signature
//! itself. It confirms instead that an operation scheduled before the
//! current one is a signature-verification instruction over exactly the
//! claimed key, message and signature. The list of co-scheduled operations
//! arrives serialised, in the layout of the instructions sysvar. That the
//! bytes handed over are those of the transaction's own list is for the
//! host to establish.

use crate::error::AgentIdentityError;
use vstd::prelude::*;

verus! {

/// One co-scheduled operation: the program it is addressed to and its data.
#[derive(Debug)]
pub struct Operation {
    pub program_id: [u8; 32],
    pub data: Vec<u8>,
}

/// The seven 16-bit fields that follow the first two bytes of a
/// signature-verification instruction.
#[derive(Clone, Copy, Debug, PartialEq, Eq, Structural)]
pub struct SignatureOffsets {
    pub signature_offset: u16,
    pub signature_instruction_index: u16,
    pub public_key_offset: u16,
    pub public_key_instruction_index: u16,
    pub message_data_offset: u16,
    pub message_data_size: u16,
    pub message_instruction_index: u16,
}

/// Length of the fixed header: count, padding and seven 16-bit fields.
pub const HEADER_LEN: usize = 16;

/// Length of a signature.
pub const SIGNATURE_LEN: usize = 64;

/// Length of a public key.
pub const PUBLIC_KEY_LEN: usize = 32;

/// The index marker that says "these bytes are inline, in this very
/// instruction".
pub const INLINE: u16 = 0xFFFF;

/// Address of the native signature-verification program,
/// `Ed25519SigVerify111111111111111111111111111`.
pub open spec fn ed25519_program_id() -> Seq<u8> {
    seq![
        3u8, 125, 70, 214, 124, 147, 251, 190, 18, 249, 66, 143, 131, 141, 64, 255,
        5, 112, 116, 73, 39, 244, 138, 100, 252, 202, 112, 68, 128, 0, 0, 0,
    ]
}

/// The 16-bit little-endian number at `at`.
pub open spec fn le_u16(data: Seq<u8>, at: int) -> int
    recommends
        0 <= at,
        at + 2 <= data.len(),
{
    data[at] + 256 * data[at + 1]
}

/// The offsets held in the header of `data`.
pub open spec fn signature_offsets(data: Seq<u8>) -> SignatureOffsets
    recommends
        data.len() >= HEADER_LEN,
{
    SignatureOffsets {
        signature_offset: le_u16(data, 2) as u16,
        signature_instruction_index: le_u16(data, 4) as u16,
        public_key_offset: le_u16(data, 6) as u16,
        public_key_instruction_index: le_u16(data, 8) as u16,
        message_data_offset: le_u16(data, 10) as u16,
        message_data_size: le_u16(data, 12) as u16,
        message_instruction_index: le_u16(data, 14) as u16,
    }
}

impl SignatureOffsets {
    /// Signature, key and message all lie inside the instruction itself.
    pub open spec fn inline(self) -> bool {
        &&& self.signature_instruction_index == INLINE
        &&& self.public_key_instruction_index == INLINE
        &&& self.message_instruction_index == INLINE
    }

    /// The three regions lie within `len` bytes of data.
    pub open spec fn within(self, len: nat) -> bool {
        &&& self.signature_offset + SIGNATURE_LEN <= len
        &&& self.public_key_offset + PUBLIC_KEY_LEN <= len
        &&& self.message_data_offset + self.message_data_size <= len
    }

    /// Whether signature, key and message all lie inside the instruction.
    pub fn is_inline(&self) -> (r: bool)
        ensures
            r == self.inline(),
    {
        self.signature_instruction_index == INLINE && self.public_key_instruction_index == INLINE
            && self.message_instruction_index == INLINE
    }

    /// Whether the three regions lie within `len` bytes of data.
    pub fn fits(&self, len: usize) -> (r: bool)
        ensures
            r == self.within(len as nat),
    {
        len >= SIGNATURE_LEN && self.signature_offset as usize <= len - SIGNATURE_LEN && len
            >= PUBLIC_KEY_LEN && self.public_key_offset as usize <= len - PUBLIC_KEY_LEN
            && self.message_data_size as usize <= len && self.message_data_offset as usize <= len
            - self.message_data_size as usize
    }
}

/// The operation `(program_id, data)` is a signature-verification
/// instruction for one signature whose signature, key and message are
/// inline, lie within the data, and equal the claimed ones byte for byte.
pub open spec fn attests(
    program_id: Seq<u8>,
    data: Seq<u8>,
    pubkey: Seq<u8>,
    message: Seq<u8>,
    signature: Seq<u8>,
) -> bool {
    let offsets = signature_offsets(data);
    &&& program_id == ed25519_program_id()
    &&& data.len() >= HEADER_LEN
    &&& data[0] == 1
    &&& offsets.inline()
    &&& offsets.within(data.len())
    &&& data.subrange(
        offsets.signature_offset as int,
        offsets.signature_offset + SIGNATURE_LEN,
    ) == signature
    &&& data.subrange(
        offsets.public_key_offset as int,
        offsets.public_key_offset + PUBLIC_KEY_LEN,
    ) == pubkey
    &&& data.subrange(
        offsets.message_data_offset as int,
        offsets.message_data_offset + offsets.message_data_size,
    ) == message
}

/// The instruction that the serialised list `data` holds at `index`, as
/// program address and instruction data, if it can be read.
pub uninterp spec fn sysvar_instruction(data: Seq<u8>, index: int) -> Option<(Seq<u8>, Seq<u8>)>;

/// The index that the serialised list records for the current operation:
/// its last two bytes.
pub open spec fn current_index(instructions: Seq<u8>) -> int
    recommends
        instructions.len() >= 2,
{
    le_u16(instructions, instructions.len() - 2)
}

/// The operation at `index` of the serialised list attests the triple.
pub open spec fn attested_at(
    instructions: Seq<u8>,
    index: int,
    pubkey: Seq<u8>,
    message: Seq<u8>,
    signature: Seq<u8>,
) -> bool {
    match sysvar_instruction(instructions, index) {
        Some((program_id, data)) => attests(program_id, data, pubkey, message, signature),
        None => false,
    }
}

/// Some operation before the current one attests the triple.
pub open spec fn provenance_confirmed(
    instructions: Seq<u8>,
    pubkey: Seq<u8>,
    message: Seq<u8>,
    signature: Seq<u8>,
) -> bool {
    &&& instructions.len() >= 2
    &&& exists|index: int|
        0 <= index < current_index(instructions) && #[trigger] attested_at(
            instructions,
            index,
            pubkey,
            message,
            signature,
        )
}

/// What the provenance scan yields: success if some operation before the
/// current one attests the triple; `MissingEd25519Instruction` if the list
/// is too short to hold the current index; `Ed25519VerificationFailed`
/// otherwise.
pub open spec fn provenance_outcome(
    instructions: Seq<u8>,
    pubkey: Seq<u8>,
    message: Seq<u8>,
    signature: Seq<u8>,
) -> Result<(), AgentIdentityError> {
    if instructions.len() < 2 {
        Err(AgentIdentityError::MissingEd25519Instruction)
    } else if provenance_confirmed(instructions, pubkey, message, signature) {
        Ok(())
    } else {
        Err(AgentIdentityError::Ed25519VerificationFailed)
    }
}

/// The address of the native signature-verification program, which is
/// `solana_program::ed25519_program::ID`.
///
/// Trusted: the constant's bytes are those of `ed25519_program_id`.
#[verifier::external_body]
pub(crate) fn ed25519_program_address() -> (id: [u8; 32])
    ensures
        id@ == ed25519_program_id(),
{
    anchor_lang::solana_program::ed25519_program::ID.to_bytes()
}

/// Reads the current operation's index with
/// `solana_program::sysvar::instructions::load_current_index`.
///
/// Trusted: the outside function returns the last two bytes of the data as
/// a little-endian number. It indexes from the end, so the data must hold
/// two bytes.
#[allow(deprecated)]
#[verifier::external_body]
pub(crate) fn load_current_index(data: &[u8]) -> (index: u16)
    requires
        data@.len() >= 2,
    ensures
        index == current_index(data@),
{
    anchor_lang::solana_program::sysvar::instructions::load_current_index(data)
}

/// Reads one operation of the serialised list with
/// `solana_program::sysvar::instructions::load_instruction_at`.
///
/// Trusted: the outside function deserialises from the given bytes alone,
/// checks every read against the data's length, and fails rather than
/// panics; what it yields is named `sysvar_instruction`. The accounts of
/// the instruction are dropped.
#[allow(deprecated)]
#[verifier::external_body]
pub(crate) fn load_instruction_at(index: usize, data: &[u8]) -> (loaded: Option<Operation>)
    ensures
        match loaded {
            Some(op) => sysvar_instruction(data@, index as int) == Some((op.program_id@, op.data@)),
            None => sysvar_instruction(data@, index as int) is None,
        },
{
    match anchor_lang::solana_program::sysvar::instructions::load_instruction_at(index, data) {
        Ok(instruction) => Some(
            Operation { program_id: instruction.program_id.to_bytes(), data: instruction.data },
        ),
        Err(_) => None,
    }
}

/// Whether two byte strings are equal.
pub fn bytes_equal(a: &[u8], b: &[u8]) -> (r: bool)
    ensures
        r == (a@ == b@),
{
    if a.len() != b.len() {
        return false;
    }
    let mut i: usize = 0;
    while i < a.len()
        invariant
            a@.len() == b@.len(),
            i <= a@.len(),
            forall|k: int| 0 <= k < i ==> a@[k] == b@[k],
        decreases a@.len() - i,
    {
        if a[i] != b[i] {
            return false;
        }
        i += 1;
    }
    assert(a@ =~= b@);
    true
}

/// Whether the `expected.len()` bytes of `data` from `offset` on equal
/// `expected`.
pub fn region_equals(data: &[u8], offset: usize, expected: &[u8]) -> (r: bool)
    requires
        offset + expected@.len() <= data@.len(),
    ensures
        r == (data@.subrange(offset as int, offset + expected@.len()) == expected@),
{
    let ghost region = data@.subrange(offset as int, offset + expected@.len());
    let total = data.len();
    let mut i: usize = 0;
    while i < expected.len()
        invariant
            total == data@.len(),
            offset + expected@.len() <= data@.len(),
            region == data@.subrange(offset as int, offset + expected@.len()),
            i <= expected@.len(),
            forall|k: int| 0 <= k < i ==> region[k] == expected@[k],
        decreases expected@.len() - i,
    {
        if data[offset + i] != expected[i] {
            assert(region[i as int] != expected@[i as int]);
            return false;
        }
        i += 1;
    }
    assert(region =~= expected@);
    true
}

/// Reads the 16-bit little-endian number at `at`.
pub fn read_u16_le(data: &[u8], at: usize) -> (r: u16)
    requires
        at + 2 <= data@.len(),
    ensures
        r == le_u16(data@, at as int),
{
    data[at] as u16 + 256 * (data[at + 1] as u16)
}

/// Parses the header of a signature-verification instruction.
///
/// Returns the offsets if the data holds a full header that announces
/// exactly one signature, and `None` otherwise.
pub fn parse_header(data: &[u8]) -> (header: Option<SignatureOffsets>)
    ensures
        header is Some <==> data@.len() >= HEADER_LEN && data@[0] == 1,
        header matches Some(offsets) ==> offsets == signature_offsets(data@),
{
    if data.len() < HEADER_LEN {
        return None;
    }
    if data[0] != 1 {
        return None;
    }
    Some(
        SignatureOffsets {
            signature_offset: read_u16_le(data, 2),
            signature_instruction_index: read_u16_le(data, 4),
            public_key_offset: read_u16_le(data, 6),
            public_key_instruction_index: read_u16_le(data, 8),
            message_data_offset: read_u16_le(data, 10),
            message_data_size: read_u16_le(data, 12),
            message_instruction_index: read_u16_le(data, 14),
        },
    )
}

/// Whether `operation` attests that `signature` was verified against
/// `pubkey` over `message`.
///
/// An operation that points at another operation's bytes for any of the
/// three is never accepted, whatever bytes it holds itself: the verifier
/// would have checked those other bytes, not the ones compared here.
pub fn operation_attests(
    operation: &Operation,
    pubkey: &[u8; 32],
    message: &[u8],
    signature: &[u8; 64],
) -> (r: bool)
    ensures
        r == attests(operation.program_id@, operation.data@, pubkey@, message@, signature@),
{
    let program = ed25519_program_address();
    if !bytes_equal(&operation.program_id, &program) {
        return false;
    }
    let data = operation.data.as_slice();
    let offsets = match parse_header(data) {
        Some(offsets) => offsets,
        None => {
            return false;
        },
    };
    if !offsets.is_inline() {
        return false;
    }
    if !offsets.fits(data.len()) {
        return false;
    }
    if !region_equals(data, offsets.signature_offset as usize, signature) {
        return false;
    }
    if !region_equals(data, offsets.public_key_offset as usize, pubkey) {
        return false;
    }
    if offsets.message_data_size as usize != message.len() {
        assert(data@.subrange(
            offsets.message_data_offset as int,
            offsets.message_data_offset + offsets.message_data_size,
        ).len() != message@.len());
        return false;
    }
    region_equals(data, offsets.message_data_offset as usize, message)
}

/// Confirms that an operation scheduled before the current one verified
/// `signature` against `pubkey` over `message`.
///
/// `instructions` is the serialised list of the transaction's operations.
/// The operations before the current one are scanned in order; one that
/// cannot be read is passed over. Fails with `MissingEd25519Instruction`
/// if the list is too short to hold the current index, and with
/// `Ed25519VerificationFailed` if no operation attests the triple.
pub fn verify_ed25519_signature(
    instructions: &[u8],
    pubkey: &[u8; 32],
    message: &[u8],
    signature: &[u8; 64],
) -> (r: Result<(), AgentIdentityError>)
    ensures
        r == provenance_outcome(instructions@, pubkey@, message@, signature@),
{
    if instructions.len() < 2 {
        return Err(AgentIdentityError::MissingEd25519Instruction);
    }
    let current = load_current_index(instructions);
    let mut index: u16 = 0;
    while index < current
        invariant
            instructions@.len() >= 2,
            index <= current,
            current == current_index(instructions@),
            forall|k: int|
                0 <= k < index ==> !attested_at(instructions@, k, pubkey@, message@, signature@),
        decreases current - index,
    {
        match load_instruction_at(index as usize, instructions) {
            Some(operation) => {
                if operation_attests(&operation, pubkey, message, signature) {
                    assert(attested_at(
                        instructions@,
                        index as int,
                        pubkey@,
                        message@,
                        signature@,
                    ));
                    return Ok(());
                }
            },
            None => {},
        }
        index += 1;
    }
    Err(AgentIdentityError::Ed25519VerificationFailed)
}

} // verus!
