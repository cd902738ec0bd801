//! The ways an operation on an identity record can be rejected.

use vstd::prelude::*;

verus! {

/// Why an operation was rejected. A rejected operation leaves the record
/// as it was.
#[derive(Debug, Clone, Copy, PartialEq, Eq, Structural)]
pub enum AgentIdentityError {
    /// The number of weights differs from the number of dimensions.
    DimensionWeightMismatch,
    /// More than sixteen dimensions.
    TooManyDimensions,
    /// No dimension at all.
    NoDimensions,
    /// The dimension index is not below the record's dimension count.
    InvalidDimensionIndex,
    /// A weight or declared value above 10000.
    WeightOutOfRange,
    /// The experience signal's length differs from the dimension count.
    ExperienceSignalMismatch,
    /// The pivotal-experience log is full.
    TooManyPivotalExperiences,
    /// The declaration chain is broken.
    ChainBroken,
    /// The signature is invalid.
    InvalidSignature,
    /// A declaration came too soon after the previous one.
    RateLimitExceeded,
    /// No preceding operation attests the signature over the message.
    Ed25519VerificationFailed,
    /// The list of co-scheduled operations could not be read.
    MissingEd25519Instruction,
}

} // verus!
