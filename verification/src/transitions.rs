//! What each operation does to a record, as functions on views.
//!
//! The executable operations are specified by these functions; the laws of
//! the library are proved about them.

use crate::codec::{declaration_digest, declaration_message, folded_root, sha256_of};
use crate::constants::{
    MAX_DIMENSIONS, MAX_DIMENSION_NAME_LEN, MAX_PIVOTAL_EXPERIENCES, MAX_STORED_DECLARATIONS,
    MAX_WEIGHT, MIN_DECLARATION_INTERVAL,
};
use crate::error::AgentIdentityError;
use crate::evolution::{coherence, continuity, evolved_weight, relaxed_self_model};
use crate::provenance::provenance_outcome;
use crate::state::{empty_declaration, zero_hash, DeclarationView, IdentityView};
use vstd::prelude::*;
use vstd::utf8::encode_utf8;

verus! {

/// A dimension name as stored: its first sixteen bytes, padded with zeros.
pub open spec fn padded_name(name: Seq<u8>) -> Seq<u8> {
    Seq::new(MAX_DIMENSION_NAME_LEN as nat, |j: int| if j < name.len() { name[j] } else { 0u8 })
}

/// The UTF-8 bytes of each name.
pub open spec fn names_as_bytes(names: Seq<String>) -> Seq<Seq<u8>> {
    Seq::new(names.len(), |i: int| encode_utf8(names[i]@))
}

/// Why `initialize` rejects its arguments, if it does.
pub open spec fn initialize_rejection(names: nat, weights: Seq<u64>) -> Option<
    AgentIdentityError,
> {
    if names != weights.len() {
        Some(AgentIdentityError::DimensionWeightMismatch)
    } else if names > MAX_DIMENSIONS {
        Some(AgentIdentityError::TooManyDimensions)
    } else if names == 0 {
        Some(AgentIdentityError::NoDimensions)
    } else if exists|i: int| 0 <= i < weights.len() && weights[i] > MAX_WEIGHT {
        Some(AgentIdentityError::WeightOutOfRange)
    } else {
        None
    }
}

/// The record that `initialize` creates: coherent (self-model equal to the
/// weights), with an empty chain and an empty pivotal log.
pub open spec fn initial_identity(
    authority: Seq<u8>,
    bump: u8,
    names: Seq<Seq<u8>>,
    weights: Seq<u64>,
    vocabulary_hash: Seq<u8>,
    timestamp: i64,
) -> IdentityView {
    let active = Seq::new(
        MAX_DIMENSIONS as nat,
        |i: int| if i < weights.len() { weights[i] } else { 0u64 },
    );
    IdentityView {
        authority,
        bump,
        dimension_count: names.len(),
        vocabulary_hash,
        dimension_names: Seq::new(
            MAX_DIMENSIONS as nat,
            |i: int| if i < names.len() { padded_name(names[i]) } else { padded_name(seq![]) },
        ),
        weights: active,
        self_model: active,
        time: 0,
        declaration_count: 0,
        declarations: Seq::new(MAX_STORED_DECLARATIONS as nat, |i: int| empty_declaration()),
        genesis_hash: zero_hash(),
        current_hash: zero_hash(),
        merkle_root: zero_hash(),
        pivotal_count: 0,
        pivotal_hashes: Seq::new(MAX_PIVOTAL_EXPERIENCES as nat, |i: int| zero_hash()),
        pivotal_impacts: Seq::new(MAX_PIVOTAL_EXPERIENCES as nat, |i: int| 0u64),
        pivotal_timestamps: Seq::new(MAX_PIVOTAL_EXPERIENCES as nat, |i: int| 0i64),
        continuity_score: MAX_WEIGHT,
        coherence_score: 0,
        stability_score: MAX_WEIGHT,
        created_at: timestamp,
        updated_at: timestamp,
        last_declaration_slot: 0,
        reserved: Seq::new(16, |i: int| 0u8),
    }
}

/// A declaration may be made at `slot`: it is the first ever, or at least
/// two slots have passed since the previous one.
pub open spec fn rate_limit_allows(pre: IdentityView, slot: u64) -> bool {
    pre.declaration_count == 0 || slot >= pre.last_declaration_slot + MIN_DECLARATION_INTERVAL
}

/// The message whose signature authorises a declaration on `pre`.
pub open spec fn authorising_message(
    pre: IdentityView,
    dimension_index: u8,
    new_value: u64,
    content: Seq<u8>,
) -> Seq<u8> {
    declaration_message(pre.authority, dimension_index, new_value, content, pre.current_hash)
}

/// Why a declaration is rejected on the record and the clock alone, if it
/// is: for its rate, then for its dimension index, then for its value.
pub open spec fn declaration_refusal(
    pre: IdentityView,
    dimension_index: u8,
    new_value: u64,
    slot: u64,
) -> Option<AgentIdentityError> {
    if !rate_limit_allows(pre, slot) {
        Some(AgentIdentityError::RateLimitExceeded)
    } else if dimension_index >= pre.dimension_count {
        Some(AgentIdentityError::InvalidDimensionIndex)
    } else if new_value > MAX_WEIGHT {
        Some(AgentIdentityError::WeightOutOfRange)
    } else {
        None
    }
}

/// Why a declaration is rejected, if it is, given the outcome of the
/// provenance scan. The record and the clock are looked at first.
pub open spec fn declare_rejection_given(
    pre: IdentityView,
    provenance: Result<(), AgentIdentityError>,
    dimension_index: u8,
    new_value: u64,
    slot: u64,
) -> Option<AgentIdentityError> {
    match declaration_refusal(pre, dimension_index, new_value, slot) {
        Some(e) => Some(e),
        None => match provenance {
            Err(e) => Some(e),
            Ok(_) => None,
        },
    }
}

/// Why `declare` rejects a declaration, if it does. The checks come in this
/// order: rate limit, dimension index, value range, signature provenance.
pub open spec fn declare_rejection(
    pre: IdentityView,
    instructions: Seq<u8>,
    dimension_index: u8,
    new_value: u64,
    content: Seq<u8>,
    signature: Seq<u8>,
    slot: u64,
) -> Option<AgentIdentityError> {
    declare_rejection_given(
        pre,
        provenance_outcome(
            instructions,
            pre.authority,
            authorising_message(pre, dimension_index, new_value, content),
            signature,
        ),
        dimension_index,
        new_value,
        slot,
    )
}

/// The ring slot that declaration number `declaration_count` (from zero)
/// is written to.
pub open spec fn ring_slot(declaration_count: nat) -> int {
    declaration_count as int % MAX_STORED_DECLARATIONS as int
}

/// The declaration that `declare` appends to the chain of `pre`.
pub open spec fn new_declaration(
    pre: IdentityView,
    dimension_index: u8,
    new_value: u64,
    content: Seq<u8>,
    signature: Seq<u8>,
    timestamp: i64,
) -> DeclarationView {
    DeclarationView {
        index: dimension_index,
        value: new_value,
        timestamp,
        previous_hash: pre.current_hash,
        signature,
        content_hash: sha256_of(content),
    }
}

/// The record after an accepted declaration.
///
/// The declaration takes its ring slot; its digest becomes the current
/// hash (and the genesis hash, if it is the first) and is folded into the
/// chain root; weight and self-model of the dimension snap to the new
/// value; the continuity score is recomputed.
pub open spec fn declared(
    pre: IdentityView,
    dimension_index: u8,
    new_value: u64,
    content: Seq<u8>,
    signature: Seq<u8>,
    timestamp: i64,
    slot: u64,
) -> IdentityView {
    let declaration = new_declaration(
        pre,
        dimension_index,
        new_value,
        content,
        signature,
        timestamp,
    );
    let digest = declaration_digest(declaration);
    let count = pre.declaration_count + 1;
    IdentityView {
        weights: pre.weights.update(dimension_index as int, new_value),
        self_model: pre.self_model.update(dimension_index as int, new_value),
        declaration_count: count,
        declarations: pre.declarations.update(ring_slot(pre.declaration_count), declaration),
        genesis_hash: if pre.declaration_count == 0 {
            digest
        } else {
            pre.genesis_hash
        },
        current_hash: digest,
        merkle_root: folded_root(pre.merkle_root, digest, count as u32),
        continuity_score: continuity(count) as u64,
        updated_at: timestamp,
        last_declaration_slot: slot,
        ..pre
    }
}

/// The weights after an evolution step: each active weight takes one Euler
/// step driven by its signal.
pub open spec fn evolved_weights(pre: IdentityView, signal: Seq<i64>, time_step: u64) -> Seq<u64> {
    Seq::new(
        pre.weights.len(),
        |i: int|
            if i < pre.dimension_count {
                evolved_weight(pre.weights[i], signal[i], time_step) as u64
            } else {
                pre.weights[i]
            },
    )
}

/// The self-model after an evolution step: each active entry relaxes
/// toward the weight that the same step produced.
pub open spec fn relaxed_self_models(pre: IdentityView, weights: Seq<u64>, time_step: u64) -> Seq<
    u64,
> {
    Seq::new(
        pre.self_model.len(),
        |i: int|
            if i < pre.dimension_count {
                relaxed_self_model(pre.self_model[i], weights[i], time_step) as u64
            } else {
                pre.self_model[i]
            },
    )
}

/// The record after an evolution step of length `time_step`.
pub open spec fn evolved(pre: IdentityView, signal: Seq<i64>, time_step: u64, timestamp: i64)
    -> IdentityView {
    let weights = evolved_weights(pre, signal, time_step);
    let self_model = relaxed_self_models(pre, weights, time_step);
    IdentityView {
        weights,
        self_model,
        time: pre.time + time_step as nat,
        coherence_score: coherence(weights, self_model, pre.dimension_count) as u64,
        updated_at: timestamp,
        ..pre
    }
}

/// Why `set_weights` rejects its argument, if it does.
pub open spec fn set_weights_rejection(pre: IdentityView, new_weights: Seq<u64>) -> Option<
    AgentIdentityError,
> {
    if new_weights.len() != pre.dimension_count {
        Some(AgentIdentityError::DimensionWeightMismatch)
    } else if exists|i: int| 0 <= i < new_weights.len() && new_weights[i] > MAX_WEIGHT {
        Some(AgentIdentityError::WeightOutOfRange)
    } else {
        None
    }
}

/// `values` in the active dimensions, `old_values` in the others.
pub open spec fn overwritten(old_values: Seq<u64>, values: Seq<u64>) -> Seq<u64> {
    Seq::new(old_values.len(), |i: int| if i < values.len() { values[i] } else { old_values[i] })
}

/// The record after its weights were overwritten: weights and self-model
/// both equal the new weights, so the coherence score is zero.
pub open spec fn with_weights(pre: IdentityView, new_weights: Seq<u64>, timestamp: i64)
    -> IdentityView {
    IdentityView {
        weights: overwritten(pre.weights, new_weights),
        self_model: overwritten(pre.self_model, new_weights),
        coherence_score: 0,
        updated_at: timestamp,
        ..pre
    }
}

/// The record after a pivotal experience was appended to its log.
pub open spec fn with_pivotal(
    pre: IdentityView,
    experience_hash: Seq<u8>,
    impact_magnitude: u64,
    timestamp: i64,
) -> IdentityView {
    IdentityView {
        pivotal_count: pre.pivotal_count + 1,
        pivotal_hashes: pre.pivotal_hashes.update(pre.pivotal_count as int, experience_hash),
        pivotal_impacts: pre.pivotal_impacts.update(pre.pivotal_count as int, impact_magnitude),
        pivotal_timestamps: pre.pivotal_timestamps.update(pre.pivotal_count as int, timestamp),
        updated_at: timestamp,
        ..pre
    }
}

} // verus!
