//! Notifications that the operations hand back for outside indexers.
//!
//! They are advisory: nothing in the library reads them.

use vstd::prelude::*;

verus! {

/// A record was created.
#[derive(Clone, Debug)]
pub struct IdentityInitialized {
    pub authority: [u8; 32],
    pub dimension_count: u8,
    pub vocabulary_hash: [u8; 32],
    pub timestamp: i64,
}

/// A declaration was appended to the chain.
#[derive(Clone, Debug)]
pub struct DeclarationRecorded {
    pub authority: [u8; 32],
    /// Declarations made so far, this one included.
    pub declaration_count: u32,
    pub dimension_index: u8,
    pub new_value: u64,
    /// Digest of the new declaration.
    pub declaration_hash: [u8; 32],
    pub timestamp: i64,
}

/// Weights and self-model took an evolution step.
#[derive(Clone, Debug)]
pub struct IdentityEvolved {
    pub authority: [u8; 32],
    /// Logical time after the step.
    pub time: u64,
    pub coherence_score: u64,
    pub timestamp: i64,
}

/// A pivotal experience was logged.
#[derive(Clone, Debug)]
pub struct PivotalExperienceRecorded {
    pub authority: [u8; 32],
    /// Pivotal experiences logged so far, this one included.
    pub pivotal_count: u16,
    pub experience_hash: [u8; 32],
    pub impact_magnitude: u64,
    pub timestamp: i64,
}

/// The weights were overwritten.
#[derive(Clone, Debug)]
pub struct WeightsSet {
    pub authority: [u8; 32],
    pub weights: Vec<u64>,
    pub timestamp: i64,
}

/// The record was closed.
#[derive(Clone, Debug)]
pub struct IdentityClosed {
    pub authority: [u8; 32],
    pub declaration_count: u32,
    pub timestamp: i64,
}

} // verus!
