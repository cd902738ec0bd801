//! Capacities and fixed-point parameters of an identity record.

use vstd::prelude::*;

verus! {

/// Largest number of dimensions a record can carry.
pub const MAX_DIMENSIONS: usize = 16;

/// Bytes kept of each dimension name; longer names are cut, shorter ones
/// are padded with zeros.
pub const MAX_DIMENSION_NAME_LEN: usize = 16;

/// Slots of the declaration ring buffer. Older declarations survive only
/// through the chain digests.
pub const MAX_STORED_DECLARATIONS: usize = 4;

/// Capacity of the pivotal-experience log.
pub const MAX_PIVOTAL_EXPERIENCES: usize = 4;

/// Fixed-point representation of 1.0; every weight lies in `0..=MAX_WEIGHT`.
pub const MAX_WEIGHT: u64 = 10000;

/// Slots that must pass between two declarations.
pub const MIN_DECLARATION_INTERVAL: u64 = 2;

/// Relaxation rate of the self-model toward the weights, 0.3 in fixed point.
pub const SELF_MODEL_RATE: u64 = 3000;

/// Half-life, in declarations, of the continuity score.
pub const CONTINUITY_HALF_LIFE: u64 = 50;

/// Largest accepted gap between the stored and the recomputed coherence.
pub const COHERENCE_TOLERANCE: u64 = 100;

} // verus!
