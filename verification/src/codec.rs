//! Byte layouts and digests of the declaration chain.
//!
//! Every digest is SHA-256 over a fixed concatenation of fields. The field
//! order and the byte widths are part of the protocol: two systems agree on
//! a chain only if they agree on these bytes.

use crate::state::{Declaration, DeclarationView};
use vstd::bytes::{spec_u32_to_le_bytes, spec_u64_to_le_bytes, u32_to_le_bytes, u64_to_le_bytes};
use vstd::prelude::*;
use vstd::utf8::encode_utf8;

verus! {

/// The SHA-256 digest of `data`.
pub uninterp spec fn sha256_of(data: Seq<u8>) -> Seq<u8>;

/// SHA-256, computed by `solana_program::hash::hash`.
///
/// Trusted: the result is the outside function's digest of exactly the
/// bytes given, which depends on those bytes alone.
#[verifier::external_body]
pub(crate) fn sha256(data: &[u8]) -> (digest: [u8; 32])
    ensures
        digest@ == sha256_of(data@),
{
    anchor_lang::solana_program::hash::hash(data).to_bytes()
}

/// The eight little-endian bytes of a timestamp, in two's complement.
pub open spec fn timestamp_bytes(timestamp: i64) -> Seq<u8> {
    spec_u64_to_le_bytes(timestamp as u64)
}

/// The bytes a declaration is digested over:
/// `index || value (8, LE) || timestamp (8, LE) || previous_hash || content_hash`.
/// The signature is not among them.
pub open spec fn declaration_bytes(d: DeclarationView) -> Seq<u8> {
    seq![d.index] + spec_u64_to_le_bytes(d.value) + timestamp_bytes(d.timestamp) + d.previous_hash
        + d.content_hash
}

/// The digest that identifies a declaration in the chain.
pub open spec fn declaration_digest(d: DeclarationView) -> Seq<u8> {
    sha256_of(declaration_bytes(d))
}

/// The bytes the chain root is folded over:
/// `current_root || new_hash || count (4, LE)`.
pub open spec fn root_update_bytes(current_root: Seq<u8>, new_hash: Seq<u8>, count: u32) -> Seq<
    u8,
> {
    current_root + new_hash + spec_u32_to_le_bytes(count)
}

/// The chain root after folding in the digest of declaration number `count`
/// (counted from one).
pub open spec fn folded_root(current_root: Seq<u8>, new_hash: Seq<u8>, count: u32) -> Seq<u8> {
    sha256_of(root_update_bytes(current_root, new_hash, count))
}

/// The message an owner signs to authorise a declaration:
/// `authority || dimension_index || new_value (8, LE) || content || prev_hash`.
pub open spec fn declaration_message(
    authority: Seq<u8>,
    dimension_index: u8,
    new_value: u64,
    content: Seq<u8>,
    prev_hash: Seq<u8>,
) -> Seq<u8> {
    authority + seq![dimension_index] + spec_u64_to_le_bytes(new_value) + content + prev_hash
}

/// Lays out the bytes a declaration is digested over.
pub fn encode_declaration(decl: &Declaration) -> (bytes: Vec<u8>)
    ensures
        bytes@ == declaration_bytes(decl@),
        bytes@.len() == 81,
{
    let mut data: Vec<u8> = Vec::with_capacity(128);
    data.push(decl.index);
    let value = u64_to_le_bytes(decl.value);
    data.extend_from_slice(value.as_slice());
    let timestamp = u64_to_le_bytes(decl.timestamp as u64);
    data.extend_from_slice(timestamp.as_slice());
    data.extend_from_slice(&decl.previous_hash);
    data.extend_from_slice(&decl.content_hash);
    data
}

/// Digest of a declaration.
pub fn compute_declaration_hash(decl: &Declaration) -> (digest: [u8; 32])
    ensures
        digest@ == declaration_digest(decl@),
{
    let data = encode_declaration(decl);
    sha256(data.as_slice())
}

/// Digest of a declaration's content, taken over its UTF-8 bytes.
pub fn compute_content_hash(content: &str) -> (digest: [u8; 32])
    ensures
        digest@ == sha256_of(encode_utf8(content@)),
{
    sha256(content.as_bytes())
}

/// Lays out the bytes the chain root is folded over.
pub fn encode_root_update(current_root: &[u8; 32], new_hash: &[u8; 32], count: u32) -> (bytes: Vec<
    u8,
>)
    ensures
        bytes@ == root_update_bytes(current_root@, new_hash@, count),
        bytes@.len() == 68,
{
    let mut data: Vec<u8> = Vec::with_capacity(68);
    data.extend_from_slice(current_root);
    data.extend_from_slice(new_hash);
    let count_bytes = u32_to_le_bytes(count);
    data.extend_from_slice(count_bytes.as_slice());
    data
}

/// Folds the digest of the `count`-th declaration into the chain root.
///
/// The root is a sequential accumulator: it commits to every declaration
/// and to their order, and offers no proof of a single one.
pub fn compute_merkle_root_update(current_root: &[u8; 32], new_hash: &[u8; 32], count: u32) -> (root:
    [u8; 32])
    ensures
        root@ == folded_root(current_root@, new_hash@, count),
{
    let data = encode_root_update(current_root, new_hash, count);
    sha256(data.as_slice())
}

/// Builds the message an owner signs to authorise a declaration.
pub fn build_declaration_message(
    authority: &[u8; 32],
    dimension_index: u8,
    new_value: u64,
    content: &str,
    prev_hash: &[u8; 32],
) -> (message: Vec<u8>)
    ensures
        message@ == declaration_message(
            authority@,
            dimension_index,
            new_value,
            encode_utf8(content@),
            prev_hash@,
        ),
{
    let mut message: Vec<u8> = Vec::with_capacity(128);
    message.extend_from_slice(authority);
    message.push(dimension_index);
    let value = u64_to_le_bytes(new_value);
    message.extend_from_slice(value.as_slice());
    message.extend_from_slice(content.as_bytes());
    message.extend_from_slice(prev_hash);
    message
}

} // verus!
