//! The identity record, its declarations, and their mathematical views.

use crate::constants::{
    MAX_DIMENSIONS, MAX_DIMENSION_NAME_LEN, MAX_PIVOTAL_EXPERIENCES, MAX_STORED_DECLARATIONS,
    MAX_WEIGHT,
};
use vstd::prelude::*;

verus! {

/// One entry of the declaration chain: dimension `index` was set to `value`.
///
/// The free-text content of a declaration is not kept, only its digest.
#[derive(Clone, Copy, Debug)]
pub struct Declaration {
    /// The dimension this declaration sets.
    pub index: u8,
    /// The new weight, in fixed point.
    pub value: u64,
    /// When the declaration was made.
    pub timestamp: i64,
    /// Digest of the declaration before this one, or zeros for the first.
    pub previous_hash: [u8; 32],
    /// Signature material; carried along, never interpreted.
    pub signature: [u8; 64],
    /// Digest of the declaration's content.
    pub content_hash: [u8; 32],
}

/// A declaration as plain mathematical values, field by field.
#[verifier::ext_equal]
pub struct DeclarationView {
    pub index: u8,
    pub value: u64,
    pub timestamp: i64,
    pub previous_hash: Seq<u8>,
    pub signature: Seq<u8>,
    pub content_hash: Seq<u8>,
}

impl View for Declaration {
    type V = DeclarationView;

    open spec fn view(&self) -> DeclarationView {
        DeclarationView {
            index: self.index,
            value: self.value,
            timestamp: self.timestamp,
            previous_hash: self.previous_hash@,
            signature: self.signature@,
            content_hash: self.content_hash@,
        }
    }
}

/// Thirty-two zero bytes: the predecessor of the first declaration, and the
/// value of every digest before the first declaration.
pub open spec fn zero_hash() -> Seq<u8> {
    Seq::new(32, |i: int| 0u8)
}

/// The declaration that fills an unused ring slot.
pub open spec fn empty_declaration() -> DeclarationView {
    DeclarationView {
        index: 0,
        value: 0,
        timestamp: 0,
        previous_hash: zero_hash(),
        signature: Seq::new(64, |i: int| 0u8),
        content_hash: zero_hash(),
    }
}

impl Default for Declaration {
    fn default() -> (d: Declaration)
        ensures
            d@ == empty_declaration(),
    {
        let d = Declaration {
            index: 0,
            value: 0,
            timestamp: 0,
            previous_hash: [0u8; 32],
            signature: [0u8; 64],
            content_hash: [0u8; 32],
        };
        assert(d@ =~= empty_declaration());
        d
    }
}

/// The identity record of one agent.
#[derive(Clone, Debug)]
pub struct AgentIdentity {
    /// Key of the owner; set at creation and never changed.
    pub authority: [u8; 32],
    /// Bump seed under which the record's address derives from the owner.
    pub bump: u8,
    /// Number of dimensions in use, `1..=16`.
    pub dimension_count: u8,
    /// Digest of the vocabulary definition.
    pub vocabulary_hash: [u8; 32],
    /// Dimension names, each cut or zero-padded to sixteen bytes.
    pub dimension_names: [[u8; MAX_DIMENSION_NAME_LEN]; MAX_DIMENSIONS],
    /// Behavioural weights, in fixed point.
    pub weights: [u64; MAX_DIMENSIONS],
    /// The agent's lagging estimate of its weights.
    pub self_model: [u64; MAX_DIMENSIONS],
    /// Logical time, advanced by evolution steps only.
    pub time: u64,
    /// Declarations ever made.
    pub declaration_count: u32,
    /// Ring buffer of the most recent declarations; declaration number `k`
    /// (from zero) lives in slot `k % 4`.
    pub declarations: [Declaration; MAX_STORED_DECLARATIONS],
    /// Digest of the first declaration.
    pub genesis_hash: [u8; 32],
    /// Digest of the latest declaration.
    pub current_hash: [u8; 32],
    /// Running fold over the digests of all declarations ever made.
    pub merkle_root: [u8; 32],
    /// Pivotal experiences recorded so far.
    pub pivotal_count: u16,
    /// Digest of each pivotal experience.
    pub pivotal_hashes: [[u8; 32]; MAX_PIVOTAL_EXPERIENCES],
    /// Impact magnitude of each pivotal experience.
    pub pivotal_impacts: [u64; MAX_PIVOTAL_EXPERIENCES],
    /// Time of each pivotal experience.
    pub pivotal_timestamps: [i64; MAX_PIVOTAL_EXPERIENCES],
    /// Confidence that decays with the number of declarations.
    pub continuity_score: u64,
    /// Distance between weights and self-model; zero is perfectly coherent.
    pub coherence_score: u64,
    /// Stability metric; fixed at 1.0.
    pub stability_score: u64,
    /// When the record was created.
    pub created_at: i64,
    /// When the record was last changed.
    pub updated_at: i64,
    /// Slot of the latest declaration.
    pub last_declaration_slot: u64,
    /// Unused.
    pub _reserved: [u8; 16],
}

/// An identity record as plain mathematical values. The fields are those
/// of `AgentIdentity`; arrays become sequences and counters lose their
/// machine bounds.
#[verifier::ext_equal]
pub struct IdentityView {
    pub authority: Seq<u8>,
    pub bump: u8,
    pub dimension_count: nat,
    pub vocabulary_hash: Seq<u8>,
    pub dimension_names: Seq<Seq<u8>>,
    pub weights: Seq<u64>,
    pub self_model: Seq<u64>,
    pub time: nat,
    pub declaration_count: nat,
    pub declarations: Seq<DeclarationView>,
    pub genesis_hash: Seq<u8>,
    pub current_hash: Seq<u8>,
    pub merkle_root: Seq<u8>,
    pub pivotal_count: nat,
    pub pivotal_hashes: Seq<Seq<u8>>,
    pub pivotal_impacts: Seq<u64>,
    pub pivotal_timestamps: Seq<i64>,
    pub continuity_score: u64,
    pub coherence_score: u64,
    pub stability_score: u64,
    pub created_at: i64,
    pub updated_at: i64,
    pub last_declaration_slot: u64,
    pub reserved: Seq<u8>,
}

impl View for AgentIdentity {
    type V = IdentityView;

    open spec fn view(&self) -> IdentityView {
        IdentityView {
            authority: self.authority@,
            bump: self.bump,
            dimension_count: self.dimension_count as nat,
            vocabulary_hash: self.vocabulary_hash@,
            dimension_names: Seq::new(
                MAX_DIMENSIONS as nat,
                |i: int| self.dimension_names@[i]@,
            ),
            weights: self.weights@,
            self_model: self.self_model@,
            time: self.time as nat,
            declaration_count: self.declaration_count as nat,
            declarations: Seq::new(
                MAX_STORED_DECLARATIONS as nat,
                |i: int| self.declarations@[i]@,
            ),
            genesis_hash: self.genesis_hash@,
            current_hash: self.current_hash@,
            merkle_root: self.merkle_root@,
            pivotal_count: self.pivotal_count as nat,
            pivotal_hashes: Seq::new(
                MAX_PIVOTAL_EXPERIENCES as nat,
                |i: int| self.pivotal_hashes@[i]@,
            ),
            pivotal_impacts: self.pivotal_impacts@,
            pivotal_timestamps: self.pivotal_timestamps@,
            continuity_score: self.continuity_score,
            coherence_score: self.coherence_score,
            stability_score: self.stability_score,
            created_at: self.created_at,
            updated_at: self.updated_at,
            last_declaration_slot: self.last_declaration_slot,
            reserved: self._reserved@,
        }
    }
}

impl IdentityView {
    /// Every active weight and self-model entry lies in `0..=10000`.
    pub open spec fn in_range(self) -> bool {
        forall|i: int|
            0 <= i < self.dimension_count ==> self.weights[i] <= MAX_WEIGHT && self.self_model[i]
                <= MAX_WEIGHT
    }

    /// The record has the shape of a stored record: fixed-size vectors,
    /// between one and sixteen dimensions, at most four pivotal entries.
    pub open spec fn well_shaped(self) -> bool {
        &&& 1 <= self.dimension_count <= MAX_DIMENSIONS
        &&& self.pivotal_count <= MAX_PIVOTAL_EXPERIENCES
        &&& self.weights.len() == MAX_DIMENSIONS
        &&& self.self_model.len() == MAX_DIMENSIONS
        &&& self.dimension_names.len() == MAX_DIMENSIONS
        &&& self.declarations.len() == MAX_STORED_DECLARATIONS
        &&& self.pivotal_hashes.len() == MAX_PIVOTAL_EXPERIENCES
        &&& self.pivotal_impacts.len() == MAX_PIVOTAL_EXPERIENCES
        &&& self.pivotal_timestamps.len() == MAX_PIVOTAL_EXPERIENCES
    }

    /// The invariant of an identity record: well shaped, and every active
    /// weight and self-model entry in range.
    pub open spec fn wf(self) -> bool {
        self.well_shaped() && self.in_range()
    }
}

impl AgentIdentity {
    /// The invariant of an identity record, which `initialize` establishes
    /// and every operation preserves.
    pub open spec fn wf(&self) -> bool {
        self@.wf()
    }

    /// Whether the record satisfies its invariant.
    pub fn is_well_formed(&self) -> (ok: bool)
        ensures
            ok == self.wf(),
    {
        if self.dimension_count < 1 || self.dimension_count as usize > MAX_DIMENSIONS {
            return false;
        }
        if self.pivotal_count as usize > MAX_PIVOTAL_EXPERIENCES {
            return false;
        }
        let mut i: usize = 0;
        while i < self.dimension_count as usize
            invariant
                i <= self.dimension_count <= MAX_DIMENSIONS,
                forall|k: int|
                    0 <= k < i ==> self.weights@[k] <= MAX_WEIGHT && self.self_model@[k]
                        <= MAX_WEIGHT,
            decreases self.dimension_count - i,
        {
            if self.weights[i] > MAX_WEIGHT || self.self_model[i] > MAX_WEIGHT {
                return false;
            }
            i += 1;
        }
        true
    }
}

/// What `verify` reports about a record.
#[derive(Clone, Debug)]
pub struct VerificationResult {
    /// Whether every check passed.
    pub is_valid: bool,
    /// The first check that failed: 0 none, 1 address derivation, 2 weight
    /// range, 3 chain linkage, 4 latest digest, 5 coherence.
    pub error_code: u8,
    /// Declarations ever made.
    pub chain_length: u32,
    pub continuity_score: u64,
    pub coherence_score: u64,
    pub stability_score: u64,
    pub genesis_hash: [u8; 32],
    pub current_hash: [u8; 32],
    pub merkle_root: [u8; 32],
}

} // verus!
