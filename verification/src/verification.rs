//! The consistency check of a stored record.
//!
//! `verify` reads a record and changes nothing. It runs four checks and
//! reports the first that fails: address derivation, weight range, chain
//! linkage within the retained window, and coherence.

use crate::codec::{compute_declaration_hash, declaration_digest};
use crate::constants::{COHERENCE_TOLERANCE, MAX_DIMENSIONS, MAX_STORED_DECLARATIONS, MAX_WEIGHT};
use crate::evolution::{coherence, compute_coherence};
use crate::provenance::bytes_equal;
use crate::state::{zero_hash, AgentIdentity, DeclarationView, IdentityView, VerificationResult};
use vstd::prelude::*;

verus! {

/// The text `agent-identity`, first seed of every record address.
pub const ADDRESS_SEED: [u8; 14] = [97, 103, 101, 110, 116, 45, 105, 100, 101, 110, 116, 105, 116, 121];

/// Every check passed.
pub const CODE_VALID: u8 = 0;

/// The record's address or bump does not derive from its owner.
pub const CODE_DERIVATION: u8 = 1;

/// An active weight or self-model entry exceeds 10000.
pub const CODE_RANGE: u8 = 2;

/// A retained declaration does not point at its predecessor.
pub const CODE_CHAIN_BROKEN: u8 = 3;

/// The current hash is not the digest of the latest declaration.
pub const CODE_HASH_MISMATCH: u8 = 4;

/// The stored coherence score is off by more than the tolerance.
pub const CODE_COHERENCE: u8 = 5;

/// The program-derived address and bump seed that the seeds
/// `first_seed, second_seed` yield under `program_id`, if there is one.
pub uninterp spec fn program_address_of(
    first_seed: Seq<u8>,
    second_seed: Seq<u8>,
    program_id: Seq<u8>,
) -> Option<(Seq<u8>, u8)>;

/// Derives a program address with `Pubkey::try_find_program_address`,
/// from two seeds in this order.
///
/// Trusted: the outside function computes address and bump from the seeds
/// and the program address alone, and returns `None` rather than panic
/// where no address can be derived; what it yields is named
/// `program_address_of`.
#[verifier::external_body]
pub(crate) fn try_find_program_address(
    first_seed: &[u8],
    second_seed: &[u8],
    program_id: &[u8; 32],
) -> (found: Option<([u8; 32], u8)>)
    ensures
        match found {
            Some((address, bump)) => program_address_of(first_seed@, second_seed@, program_id@)
                == Some((address@, bump)),
            None => program_address_of(first_seed@, second_seed@, program_id@) is None,
        },
{
    let program = anchor_lang::prelude::Pubkey::new_from_array(*program_id);
    let seeds = [first_seed, second_seed];
    match anchor_lang::prelude::Pubkey::try_find_program_address(&seeds, &program) {
        Some((address, bump)) => Some((address.to_bytes(), bump)),
        None => None,
    }
}

/// `derived` is the address and bump that the record claims for itself.
pub open spec fn derivation_matches(
    v: IdentityView,
    record_address: Seq<u8>,
    derived: Option<(Seq<u8>, u8)>,
) -> bool {
    derived == Some((record_address, v.bump))
}

/// Number of declarations still held in the ring.
pub open spec fn retained_count(v: IdentityView) -> int {
    if v.declaration_count <= MAX_STORED_DECLARATIONS {
        v.declaration_count as int
    } else {
        MAX_STORED_DECLARATIONS as int
    }
}

/// Ring slot of the oldest declaration still held.
pub open spec fn oldest_slot(v: IdentityView) -> int {
    if v.declaration_count <= MAX_STORED_DECLARATIONS {
        0
    } else {
        v.declaration_count as int % MAX_STORED_DECLARATIONS as int
    }
}

/// The `k`-th oldest declaration still held, counted from zero.
pub open spec fn retained(v: IdentityView, k: int) -> DeclarationView {
    v.declarations[(oldest_slot(v) + k) % MAX_STORED_DECLARATIONS as int]
}

/// The `k`-th oldest retained declaration points at its predecessor: at
/// the retained declaration before it, or, if it is the first ever made,
/// at the zero hash. The oldest retained declaration of a longer chain has
/// lost its predecessor and is not held to anything.
pub open spec fn link_holds(v: IdentityView, k: int) -> bool {
    if k == 0 {
        v.declaration_count > MAX_STORED_DECLARATIONS || retained(v, 0).previous_hash
            == zero_hash()
    } else {
        retained(v, k).previous_hash == declaration_digest(retained(v, k - 1))
    }
}

/// Every retained declaration points at its predecessor.
pub open spec fn links_intact(v: IdentityView) -> bool {
    forall|k: int| 0 <= k < retained_count(v) ==> link_holds(v, k)
}

/// The current hash is the digest of the latest declaration.
pub open spec fn head_matches(v: IdentityView) -> bool {
    v.current_hash == declaration_digest(
        v.declarations[(v.declaration_count - 1) % MAX_STORED_DECLARATIONS as int],
    )
}

/// The stored coherence score is within 100 of the recomputed one.
pub open spec fn coherence_consistent(v: IdentityView) -> bool {
    let computed = coherence(v.weights, v.self_model, v.dimension_count);
    -COHERENCE_TOLERANCE <= computed - v.coherence_score <= COHERENCE_TOLERANCE
}

/// The code of the first check that fails on `v`, or zero. The chain
/// checks apply only once a declaration was made.
pub open spec fn first_failure(v: IdentityView, derivation_ok: bool) -> u8 {
    if !derivation_ok {
        CODE_DERIVATION
    } else if !v.in_range() {
        CODE_RANGE
    } else if v.declaration_count > 0 && !links_intact(v) {
        CODE_CHAIN_BROKEN
    } else if v.declaration_count > 0 && !head_matches(v) {
        CODE_HASH_MISMATCH
    } else if !coherence_consistent(v) {
        CODE_COHERENCE
    } else {
        CODE_VALID
    }
}

/// Whether every active weight and self-model entry is at most 10000.
pub fn weights_in_range(identity: &AgentIdentity) -> (r: bool)
    requires
        identity.dimension_count <= MAX_DIMENSIONS,
    ensures
        r == identity@.in_range(),
{
    let mut i: usize = 0;
    while i < identity.dimension_count as usize
        invariant
            i <= identity.dimension_count <= MAX_DIMENSIONS,
            forall|k: int|
                0 <= k < i ==> identity.weights@[k] <= MAX_WEIGHT && identity.self_model@[k]
                    <= MAX_WEIGHT,
        decreases identity.dimension_count - i,
    {
        if identity.weights[i] > MAX_WEIGHT || identity.self_model[i] > MAX_WEIGHT {
            assert(identity@.weights[i as int] > MAX_WEIGHT || identity@.self_model[i as int]
                > MAX_WEIGHT);
            return false;
        }
        i += 1;
    }
    true
}

/// Whether every retained declaration points at its predecessor.
pub fn chain_links_intact(identity: &AgentIdentity) -> (r: bool)
    ensures
        r == links_intact(identity@),
{
    let count = identity.declaration_count;
    let whole = count as usize <= MAX_STORED_DECLARATIONS;
    let stored: usize = if whole {
        count as usize
    } else {
        MAX_STORED_DECLARATIONS
    };
    let start: usize = if whole {
        0
    } else {
        count as usize % MAX_STORED_DECLARATIONS
    };
    let mut expected = [0u8; 32];
    assert(expected@ =~= zero_hash());
    let mut k: usize = 0;
    while k < stored
        invariant
            k <= stored <= MAX_STORED_DECLARATIONS,
            stored == retained_count(identity@),
            start == oldest_slot(identity@),
            start < MAX_STORED_DECLARATIONS,
            whole == (identity@.declaration_count <= MAX_STORED_DECLARATIONS),
            forall|j: int| 0 <= j < k ==> link_holds(identity@, j),
            k == 0 ==> expected@ == zero_hash(),
            k > 0 ==> expected@ == declaration_digest(retained(identity@, k - 1)),
        decreases stored - k,
    {
        let slot = (start + k) % MAX_STORED_DECLARATIONS;
        let declaration = &identity.declarations[slot];
        assert(declaration@ == retained(identity@, k as int));
        if k > 0 || whole {
            if !bytes_equal(&declaration.previous_hash, &expected) {
                assert(!link_holds(identity@, k as int));
                return false;
            }
        }
        expected = compute_declaration_hash(declaration);
        k += 1;
    }
    true
}

/// Whether the current hash is the digest of the latest declaration.
pub fn head_digest_matches(identity: &AgentIdentity) -> (r: bool)
    requires
        identity.declaration_count > 0,
    ensures
        r == head_matches(identity@),
{
    let last = (identity.declaration_count - 1) as usize % MAX_STORED_DECLARATIONS;
    let digest = compute_declaration_hash(&identity.declarations[last]);
    bytes_equal(&identity.current_hash, &digest)
}

/// Whether the stored coherence score is within 100 of the recomputed one.
pub fn coherence_is_consistent(identity: &AgentIdentity) -> (r: bool)
    requires
        identity.dimension_count <= MAX_DIMENSIONS,
    ensures
        r == coherence_consistent(identity@),
{
    let computed = compute_coherence(
        &identity.weights,
        &identity.self_model,
        identity.dimension_count,
    );
    let gap = if computed > identity.coherence_score {
        computed - identity.coherence_score
    } else {
        identity.coherence_score - computed
    };
    gap <= COHERENCE_TOLERANCE
}

/// Checks a record, given the address and bump that were derived for its
/// owner.
///
/// The result's code is that of the first failing check, in the order
/// derivation, range, chain linkage, latest digest, coherence; the scores
/// and digests of the record are reported whatever the outcome.
pub fn verify_with_address(
    identity: &AgentIdentity,
    record_address: &[u8; 32],
    derived: Option<([u8; 32], u8)>,
) -> (result: VerificationResult)
    requires
        identity.dimension_count <= MAX_DIMENSIONS,
    ensures
        result.error_code == first_failure(
            identity@,
            derived matches Some((address, bump)) && address@ == record_address@ && bump
                == identity.bump,
        ),
        result.is_valid == (result.error_code == CODE_VALID),
        result.chain_length == identity.declaration_count,
        result.continuity_score == identity.continuity_score,
        result.coherence_score == identity.coherence_score,
        result.stability_score == identity.stability_score,
        result.genesis_hash == identity.genesis_hash,
        result.current_hash == identity.current_hash,
        result.merkle_root == identity.merkle_root,
{
    let derivation_ok = match derived {
        Some((address, bump)) => bytes_equal(&address, record_address) && bump == identity.bump,
        None => false,
    };
    let error_code = if !derivation_ok {
        CODE_DERIVATION
    } else if !weights_in_range(identity) {
        CODE_RANGE
    } else if identity.declaration_count > 0 && !chain_links_intact(identity) {
        CODE_CHAIN_BROKEN
    } else if identity.declaration_count > 0 && !head_digest_matches(identity) {
        CODE_HASH_MISMATCH
    } else if !coherence_is_consistent(identity) {
        CODE_COHERENCE
    } else {
        CODE_VALID
    };
    VerificationResult {
        is_valid: error_code == CODE_VALID,
        error_code,
        chain_length: identity.declaration_count,
        continuity_score: identity.continuity_score,
        coherence_score: identity.coherence_score,
        stability_score: identity.stability_score,
        genesis_hash: identity.genesis_hash,
        current_hash: identity.current_hash,
        merkle_root: identity.merkle_root,
    }
}

/// Checks the record stored at `record_address` under the program
/// `program_id`.
///
/// The address and bump expected for the record are derived from the seed
/// `agent-identity` and the owner's key; the record must sit at that
/// address and hold that bump. Then its weights, its retained chain and
/// its coherence score are checked. Nothing is changed.
pub fn verify(identity: &AgentIdentity, record_address: &[u8; 32], program_id: &[u8; 32]) -> (result:
    VerificationResult)
    requires
        identity.dimension_count <= MAX_DIMENSIONS,
    ensures
        result.error_code == first_failure(
            identity@,
            derivation_matches(
                identity@,
                record_address@,
                program_address_of(ADDRESS_SEED@, identity.authority@, program_id@),
            ),
        ),
        result.is_valid == (result.error_code == CODE_VALID),
        result.chain_length == identity.declaration_count,
        result.continuity_score == identity.continuity_score,
        result.coherence_score == identity.coherence_score,
        result.stability_score == identity.stability_score,
        result.genesis_hash == identity.genesis_hash,
        result.current_hash == identity.current_hash,
        result.merkle_root == identity.merkle_root,
{
    let derived = try_find_program_address(&ADDRESS_SEED, &identity.authority, program_id);
    verify_with_address(identity, record_address, derived)
}

} // verus!
