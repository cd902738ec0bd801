//! Verified identity-state engine for an autonomous agent.
//!
//! An identity record holds a vector of behavioural weights, a self-model
//! that lags behind them, and a hash-linked chain of signed declarations
//! that change the weights. The record keeps the last few declarations in
//! a ring buffer and commits to all of them through running digests.
//!
//! The operations are in [`instructions`] and [`verification`]; what they
//! do is specified by the functions of [`transitions`] on the views of
//! [`state`], and [`laws`] proves what holds of those.

pub mod codec;
pub mod constants;
pub mod error;
pub mod events;
pub mod evolution;
pub mod instructions;
pub mod laws;
pub mod math;
pub mod provenance;
pub mod state;
pub mod transitions;
pub mod verification;

pub use constants::{
    MAX_DIMENSIONS, MAX_DIMENSION_NAME_LEN, MAX_PIVOTAL_EXPERIENCES, MAX_STORED_DECLARATIONS,
};
pub use error::AgentIdentityError;
pub use events::{
    DeclarationRecorded, IdentityClosed, IdentityEvolved, IdentityInitialized,
    PivotalExperienceRecorded, WeightsSet,
};
pub use instructions::{close, declare, evolve, initialize, record_pivotal, set_weights};
pub use state::{AgentIdentity, Declaration, VerificationResult};
pub use verification::verify;
