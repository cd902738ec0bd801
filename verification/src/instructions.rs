//! The operations on an identity record.
//!
//! Each operation validates everything before it writes anything: a
//! rejected call leaves the record exactly as it was. Time is never read
//! here; the caller's clock supplies `timestamp` and `slot`.

use crate::codec::{
    build_declaration_message, compute_content_hash, compute_declaration_hash,
    compute_merkle_root_update,
};
use crate::constants::{
    MAX_DIMENSIONS, MAX_DIMENSION_NAME_LEN, MAX_PIVOTAL_EXPERIENCES, MAX_STORED_DECLARATIONS,
    MAX_WEIGHT, MIN_DECLARATION_INTERVAL,
};
use crate::error::AgentIdentityError;
use crate::events::{
    DeclarationRecorded, IdentityClosed, IdentityEvolved, IdentityInitialized,
    PivotalExperienceRecorded, WeightsSet,
};
use crate::evolution::{
    compute_coherence, compute_continuity_score, evolve_weight, lemma_squared_distance_zero,
    relax_self_model,
};
use crate::math::lemma_floor_sqrt_is;
use crate::provenance::verify_ed25519_signature;
use crate::state::{AgentIdentity, Declaration};
use crate::transitions::{
    declaration_refusal, declare_rejection, declare_rejection_given, declared, evolved,
    evolved_weights, initial_identity, initialize_rejection, names_as_bytes, padded_name,
    relaxed_self_models, set_weights_rejection, with_pivotal, with_weights,
};
use vstd::prelude::*;
use vstd::utf8::encode_utf8;

verus! {

/// Whether some entry of `weights` exceeds 10000.
fn any_out_of_range(weights: &Vec<u64>) -> (r: bool)
    ensures
        r == exists|i: int| 0 <= i < weights@.len() && weights@[i] > MAX_WEIGHT,
{
    let mut i: usize = 0;
    while i < weights.len()
        invariant
            i <= weights@.len(),
            forall|k: int| 0 <= k < i ==> weights@[k] <= MAX_WEIGHT,
        decreases weights@.len() - i,
    {
        if weights[i] > MAX_WEIGHT {
            return true;
        }
        i += 1;
    }
    false
}

/// The first sixteen bytes of `name`, padded with zeros.
fn pad_name(name: &[u8]) -> (padded: [u8; MAX_DIMENSION_NAME_LEN])
    ensures
        padded@ == padded_name(name@),
{
    let mut padded = [0u8; MAX_DIMENSION_NAME_LEN];
    let mut j: usize = 0;
    while j < MAX_DIMENSION_NAME_LEN && j < name.len()
        invariant
            j <= MAX_DIMENSION_NAME_LEN,
            j <= name@.len(),
            forall|k: int| 0 <= k < j ==> padded@[k] == name@[k],
            forall|k: int| j <= k < MAX_DIMENSION_NAME_LEN ==> padded@[k] == 0,
        decreases MAX_DIMENSION_NAME_LEN - j,
    {
        padded[j] = name[j];
        j += 1;
    }
    assert(padded@ =~= padded_name(name@));
    padded
}

/// Creates the identity record of `authority`.
///
/// The record starts coherent: the self-model equals the initial weights.
/// Its chain and its pivotal log are empty, continuity and stability are
/// 1.0. Rejected are: a number of weights that differs from the number of
/// names, more than sixteen dimensions, none at all, and a weight above
/// 10000.
pub fn initialize(
    authority: [u8; 32],
    bump: u8,
    timestamp: i64,
    dimension_names: Vec<String>,
    initial_weights: Vec<u64>,
    vocabulary_hash: [u8; 32],
) -> (r: Result<(AgentIdentity, IdentityInitialized), AgentIdentityError>)
    ensures
        match initialize_rejection(dimension_names@.len(), initial_weights@) {
            Some(e) => r == Err::<(AgentIdentity, IdentityInitialized), AgentIdentityError>(e),
            None => r is Ok,
        },
        r matches Ok((identity, event)) ==> {
            &&& identity.wf()
            &&& identity@ == initial_identity(
                authority@,
                bump,
                names_as_bytes(dimension_names@),
                initial_weights@,
                vocabulary_hash@,
                timestamp,
            )
            &&& event.authority == authority
            &&& event.dimension_count == dimension_names@.len()
            &&& event.vocabulary_hash == vocabulary_hash
            &&& event.timestamp == timestamp
        },
{
    if dimension_names.len() != initial_weights.len() {
        return Err(AgentIdentityError::DimensionWeightMismatch);
    }
    if dimension_names.len() > MAX_DIMENSIONS {
        return Err(AgentIdentityError::TooManyDimensions);
    }
    if dimension_names.len() == 0 {
        return Err(AgentIdentityError::NoDimensions);
    }
    if any_out_of_range(&initial_weights) {
        return Err(AgentIdentityError::WeightOutOfRange);
    }
    let count = dimension_names.len();
    let ghost names = names_as_bytes(dimension_names@);

    let mut names_padded = [[0u8; MAX_DIMENSION_NAME_LEN]; MAX_DIMENSIONS];
    let mut weights = [0u64; MAX_DIMENSIONS];
    let mut i: usize = 0;
    while i < count
        invariant
            i <= count <= MAX_DIMENSIONS,
            count == dimension_names@.len(),
            count == initial_weights@.len(),
            names == names_as_bytes(dimension_names@),
            forall|k: int| 0 <= k < i ==> names_padded@[k]@ == padded_name(names[k]),
            forall|k: int|
                i <= k < MAX_DIMENSIONS ==> names_padded@[k]@ == padded_name(Seq::<u8>::empty()),
            forall|k: int| 0 <= k < i ==> weights@[k] == initial_weights@[k],
            forall|k: int| i <= k < MAX_DIMENSIONS ==> weights@[k] == 0,
        decreases count - i,
    {
        names_padded[i] = pad_name(dimension_names[i].as_str().as_bytes());
        weights[i] = initial_weights[i];
        i += 1;
    }
    let blank = Declaration::default();
    let identity = AgentIdentity {
        authority,
        bump,
        dimension_count: count as u8,
        vocabulary_hash,
        dimension_names: names_padded,
        weights,
        self_model: weights,
        time: 0,
        declaration_count: 0,
        declarations: [blank; MAX_STORED_DECLARATIONS],
        genesis_hash: [0u8; 32],
        current_hash: [0u8; 32],
        merkle_root: [0u8; 32],
        pivotal_count: 0,
        pivotal_hashes: [[0u8; 32]; MAX_PIVOTAL_EXPERIENCES],
        pivotal_impacts: [0u64; MAX_PIVOTAL_EXPERIENCES],
        pivotal_timestamps: [0i64; MAX_PIVOTAL_EXPERIENCES],
        continuity_score: MAX_WEIGHT,
        coherence_score: 0,
        stability_score: MAX_WEIGHT,
        created_at: timestamp,
        updated_at: timestamp,
        last_declaration_slot: 0,
        _reserved: [0u8; 16],
    };
    proof {
        let model = initial_identity(
            authority@,
            bump,
            names,
            initial_weights@,
            vocabulary_hash@,
            timestamp,
        );
        assert(identity@.dimension_names =~= model.dimension_names);
        assert(identity@.weights =~= model.weights);
        assert(identity@.self_model =~= model.self_model);
        assert(identity@.declarations =~= model.declarations);
        assert(identity@.genesis_hash =~= model.genesis_hash);
        assert(identity@.current_hash =~= model.current_hash);
        assert(identity@.merkle_root =~= model.merkle_root);
        assert forall|k: int| 0 <= k < MAX_PIVOTAL_EXPERIENCES implies #[trigger] identity@.pivotal_hashes[k]
            == model.pivotal_hashes[k] by {
            assert(identity@.pivotal_hashes[k] =~= model.pivotal_hashes[k]);
        }
        assert(identity@.pivotal_hashes =~= model.pivotal_hashes);
        assert(identity@.pivotal_impacts =~= model.pivotal_impacts);
        assert(identity@.pivotal_timestamps =~= model.pivotal_timestamps);
        assert(identity@.reserved =~= model.reserved);
        assert(identity@ =~= model);
    }
    let event = IdentityInitialized {
        authority,
        dimension_count: count as u8,
        vocabulary_hash,
        timestamp,
    };
    Ok((identity, event))
}

/// Checks a declaration against the record and the clock: its rate, its
/// dimension index and its value, in this order.
pub fn check_declaration(
    identity: &AgentIdentity,
    slot: u64,
    dimension_index: u8,
    new_value: u64,
) -> (r: Result<(), AgentIdentityError>)
    ensures
        r == match declaration_refusal(identity@, dimension_index, new_value, slot) {
            Some(e) => Err::<(), AgentIdentityError>(e),
            None => Ok::<(), AgentIdentityError>(()),
        },
{
    let first = identity.declaration_count == 0;
    let spaced = slot >= MIN_DECLARATION_INTERVAL && slot - MIN_DECLARATION_INTERVAL
        >= identity.last_declaration_slot;
    if !(first || spaced) {
        return Err(AgentIdentityError::RateLimitExceeded);
    }
    if dimension_index >= identity.dimension_count {
        return Err(AgentIdentityError::InvalidDimensionIndex);
    }
    if new_value > MAX_WEIGHT {
        return Err(AgentIdentityError::WeightOutOfRange);
    }
    Ok(())
}

/// Records a declaration whose provenance scan has already been made and
/// came out as `provenance`.
///
/// The declaration is first checked against the record and the clock, then
/// the scan's outcome is honoured: a failed scan rejects the declaration
/// with the scan's error. An accepted declaration is chained to its
/// predecessor by digest and written to its ring slot; weight and
/// self-model of the dimension both take the new value.
pub fn declare_with_provenance(
    identity: &mut AgentIdentity,
    provenance: Result<(), AgentIdentityError>,
    timestamp: i64,
    slot: u64,
    dimension_index: u8,
    new_value: u64,
    content: String,
    signature: [u8; 64],
) -> (r: Result<DeclarationRecorded, AgentIdentityError>)
    requires
        old(identity).wf(),
        old(identity).declaration_count < u32::MAX,
    ensures
        final(identity).wf(),
        match declare_rejection_given(
            old(identity)@,
            provenance,
            dimension_index,
            new_value,
            slot,
        ) {
            Some(e) => r == Err::<DeclarationRecorded, AgentIdentityError>(e) && *final(identity)
                == *old(identity),
            None => r is Ok && final(identity)@ == declared(
                old(identity)@,
                dimension_index,
                new_value,
                encode_utf8(content@),
                signature@,
                timestamp,
                slot,
            ),
        },
        r matches Ok(event) ==> {
            &&& event.authority == old(identity).authority
            &&& event.declaration_count == old(identity).declaration_count + 1
            &&& event.dimension_index == dimension_index
            &&& event.new_value == new_value
            &&& event.declaration_hash == final(identity).current_hash
            &&& event.timestamp == timestamp
        },
{
    match check_declaration(identity, slot, dimension_index, new_value) {
        Err(e) => {
            return Err(e);
        },
        Ok(()) => {},
    }
    match provenance {
        Err(e) => {
            return Err(e);
        },
        Ok(()) => {},
    }

    let declaration = Declaration {
        index: dimension_index,
        value: new_value,
        timestamp,
        previous_hash: identity.current_hash,
        signature,
        content_hash: compute_content_hash(content.as_str()),
    };
    let digest = compute_declaration_hash(&declaration);
    let ring_slot = identity.declaration_count as usize % MAX_STORED_DECLARATIONS;

    if identity.declaration_count == 0 {
        identity.genesis_hash = digest;
    }
    identity.current_hash = digest;
    identity.declarations[ring_slot] = declaration;
    identity.weights[dimension_index as usize] = new_value;
    identity.self_model[dimension_index as usize] = new_value;
    identity.declaration_count += 1;
    identity.updated_at = timestamp;
    identity.last_declaration_slot = slot;
    identity.merkle_root = compute_merkle_root_update(
        &identity.merkle_root,
        &digest,
        identity.declaration_count,
    );
    identity.continuity_score = compute_continuity_score(identity.declaration_count);

    proof {
        let post = declared(
            old(identity)@,
            dimension_index,
            new_value,
            encode_utf8(content@),
            signature@,
            timestamp,
            slot,
        );
        assert(identity@.declarations =~= post.declarations);
        assert(identity@.dimension_names =~= post.dimension_names);
        assert(identity@.pivotal_hashes =~= post.pivotal_hashes);
        assert(identity@ =~= post);
    }
    Ok(
        DeclarationRecorded {
            authority: identity.authority,
            declaration_count: identity.declaration_count,
            dimension_index,
            new_value,
            declaration_hash: digest,
            timestamp,
        },
    )
}

/// Records a declaration: a signed statement by the owner that sets one
/// dimension's weight.
///
/// `instructions` is the serialised list of the transaction's operations;
/// one of those before the current one must attest `signature` over the
/// authorising message under the owner's key. The declaration is rejected
/// if it comes less than two slots after the previous one, names a
/// dimension the record does not have, or carries a value above 10000;
/// only then is the list scanned.
///
/// An accepted declaration is chained to its predecessor by digest and
/// written to its ring slot; weight and self-model of the dimension both
/// take the new value.
pub fn declare(
    identity: &mut AgentIdentity,
    instructions: &[u8],
    timestamp: i64,
    slot: u64,
    dimension_index: u8,
    new_value: u64,
    content: String,
    signature: [u8; 64],
) -> (r: Result<DeclarationRecorded, AgentIdentityError>)
    requires
        old(identity).wf(),
        old(identity).declaration_count < u32::MAX,
    ensures
        final(identity).wf(),
        match declare_rejection(
            old(identity)@,
            instructions@,
            dimension_index,
            new_value,
            encode_utf8(content@),
            signature@,
            slot,
        ) {
            Some(e) => r == Err::<DeclarationRecorded, AgentIdentityError>(e) && *final(identity)
                == *old(identity),
            None => r is Ok && final(identity)@ == declared(
                old(identity)@,
                dimension_index,
                new_value,
                encode_utf8(content@),
                signature@,
                timestamp,
                slot,
            ),
        },
        r matches Ok(event) ==> {
            &&& event.authority == old(identity).authority
            &&& event.declaration_count == old(identity).declaration_count + 1
            &&& event.dimension_index == dimension_index
            &&& event.new_value == new_value
            &&& event.declaration_hash == final(identity).current_hash
            &&& event.timestamp == timestamp
        },
{
    match check_declaration(identity, slot, dimension_index, new_value) {
        Err(e) => {
            return Err(e);
        },
        Ok(()) => {},
    }
    let message = build_declaration_message(
        &identity.authority,
        dimension_index,
        new_value,
        content.as_str(),
        &identity.current_hash,
    );
    let provenance = verify_ed25519_signature(
        instructions,
        &identity.authority,
        message.as_slice(),
        &signature,
    );
    declare_with_provenance(
        identity,
        provenance,
        timestamp,
        slot,
        dimension_index,
        new_value,
        content,
        signature,
    )
}

/// Advances the record by one evolution step of length `time_step`.
///
/// Each active weight moves by `signal * time_step / 10000` and is clamped
/// to `[0, 10000]`; each self-model entry then relaxes toward its new
/// weight at rate 0.3; finally the coherence score is recomputed and the
/// logical time advances. No declaration is made. Rejected is a signal
/// whose length differs from the dimension count.
pub fn evolve(
    identity: &mut AgentIdentity,
    timestamp: i64,
    experience_signal: Vec<i64>,
    time_step: u64,
) -> (r: Result<IdentityEvolved, AgentIdentityError>)
    requires
        old(identity).wf(),
        old(identity).time + time_step <= u64::MAX,
    ensures
        final(identity).wf(),
        experience_signal@.len() != old(identity).dimension_count ==> r == Err::<
            IdentityEvolved,
            AgentIdentityError,
        >(AgentIdentityError::ExperienceSignalMismatch) && *final(identity) == *old(identity),
        experience_signal@.len() == old(identity).dimension_count ==> r is Ok && final(identity)@
            == evolved(old(identity)@, experience_signal@, time_step, timestamp),
        r matches Ok(event) ==> {
            &&& event.authority == old(identity).authority
            &&& event.time == old(identity).time + time_step
            &&& event.coherence_score == final(identity).coherence_score
            &&& event.timestamp == timestamp
        },
{
    if experience_signal.len() != identity.dimension_count as usize {
        return Err(AgentIdentityError::ExperienceSignalMismatch);
    }
    let count = identity.dimension_count as usize;
    let ghost pre = identity@;
    let ghost target_weights = evolved_weights(pre, experience_signal@, time_step);
    let ghost target_model = relaxed_self_models(pre, target_weights, time_step);

    let mut i: usize = 0;
    while i < count
        invariant
            i <= count <= MAX_DIMENSIONS,
            count == pre.dimension_count,
            count == experience_signal@.len(),
            pre == old(identity)@,
            pre.wf(),
            target_weights == evolved_weights(pre, experience_signal@, time_step),
            forall|k: int| 0 <= k < i ==> identity.weights@[k] == target_weights[k],
            forall|k: int| i <= k < MAX_DIMENSIONS ==> identity.weights@[k] == pre.weights[k],
            *identity == (AgentIdentity { weights: identity.weights, ..*old(identity) }),
        decreases count - i,
    {
        identity.weights[i] = evolve_weight(identity.weights[i], experience_signal[i], time_step);
        i += 1;
    }
    assert(identity.weights@ =~= target_weights);

    let mut j: usize = 0;
    while j < count
        invariant
            j <= count <= MAX_DIMENSIONS,
            count == pre.dimension_count,
            pre == old(identity)@,
            pre.wf(),
            identity.weights@ == target_weights,
            target_weights == evolved_weights(pre, experience_signal@, time_step),
            target_model == relaxed_self_models(pre, target_weights, time_step),
            forall|k: int| 0 <= k < j ==> identity.self_model@[k] == target_model[k],
            forall|k: int| j <= k < MAX_DIMENSIONS ==> identity.self_model@[k] == pre.self_model[k],
            *identity == (AgentIdentity {
                weights: identity.weights,
                self_model: identity.self_model,
                ..*old(identity)
            }),
        decreases count - j,
    {
        identity.self_model[j] = relax_self_model(
            identity.self_model[j],
            identity.weights[j],
            time_step,
        );
        j += 1;
    }
    assert(identity.self_model@ =~= target_model);

    identity.coherence_score = compute_coherence(
        &identity.weights,
        &identity.self_model,
        identity.dimension_count,
    );
    identity.time += time_step;
    identity.updated_at = timestamp;

    proof {
        let post = evolved(pre, experience_signal@, time_step, timestamp);
        assert(identity@.dimension_names =~= post.dimension_names);
        assert(identity@.declarations =~= post.declarations);
        assert(identity@.pivotal_hashes =~= post.pivotal_hashes);
        assert(identity@ =~= post);
    }
    Ok(
        IdentityEvolved {
            authority: identity.authority,
            time: identity.time,
            coherence_score: identity.coherence_score,
            timestamp,
        },
    )
}

/// Overwrites the weights, and the self-model with them.
///
/// Afterwards the record is perfectly coherent: the coherence score is
/// zero, and whatever drift the self-model had is gone. Rejected are a
/// number of weights that differs from the dimension count and a weight
/// above 10000.
pub fn set_weights(identity: &mut AgentIdentity, timestamp: i64, new_weights: Vec<u64>) -> (r:
    Result<WeightsSet, AgentIdentityError>)
    requires
        old(identity).wf(),
    ensures
        final(identity).wf(),
        match set_weights_rejection(old(identity)@, new_weights@) {
            Some(e) => r == Err::<WeightsSet, AgentIdentityError>(e) && *final(identity) == *old(
                identity,
            ),
            None => r is Ok && final(identity)@ == with_weights(
                old(identity)@,
                new_weights@,
                timestamp,
            ),
        },
        r is Ok ==> final(identity).coherence_score == 0,
        r matches Ok(event) ==> {
            &&& event.authority == old(identity).authority
            &&& event.weights@ == new_weights@
            &&& event.timestamp == timestamp
        },
{
    if new_weights.len() != identity.dimension_count as usize {
        return Err(AgentIdentityError::DimensionWeightMismatch);
    }
    if any_out_of_range(&new_weights) {
        return Err(AgentIdentityError::WeightOutOfRange);
    }
    let count = identity.dimension_count as usize;
    let ghost pre = identity@;
    let mut i: usize = 0;
    while i < count
        invariant
            i <= count <= MAX_DIMENSIONS,
            count == new_weights@.len(),
            pre == old(identity)@,
            forall|k: int| 0 <= k < i ==> identity.weights@[k] == new_weights@[k],
            forall|k: int| 0 <= k < i ==> identity.self_model@[k] == new_weights@[k],
            forall|k: int| i <= k < MAX_DIMENSIONS ==> identity.weights@[k] == pre.weights[k],
            forall|k: int| i <= k < MAX_DIMENSIONS ==> identity.self_model@[k] == pre.self_model[k],
            *identity == (AgentIdentity {
                weights: identity.weights,
                self_model: identity.self_model,
                ..*old(identity)
            }),
        decreases count - i,
    {
        identity.weights[i] = new_weights[i];
        identity.self_model[i] = new_weights[i];
        i += 1;
    }
    assert forall|k: int| 0 <= k < count implies identity.weights@[k] == identity.self_model@[k] by {
        assert(identity.weights@[k] == new_weights@[k]);
    }
    identity.coherence_score = compute_coherence(
        &identity.weights,
        &identity.self_model,
        identity.dimension_count,
    );
    identity.updated_at = timestamp;

    proof {
        lemma_squared_distance_zero(identity.weights@, identity.self_model@, count as nat);
        lemma_floor_sqrt_is(0, 0);
        let post = with_weights(pre, new_weights@, timestamp);
        assert(identity@.weights =~= post.weights);
        assert(identity@.self_model =~= post.self_model);
        assert(identity@.dimension_names =~= post.dimension_names);
        assert(identity@.declarations =~= post.declarations);
        assert(identity@.pivotal_hashes =~= post.pivotal_hashes);
        assert(identity@ =~= post);
    }
    Ok(WeightsSet { authority: identity.authority, weights: new_weights, timestamp })
}

/// Appends a pivotal experience to the record's log.
///
/// The log holds four entries and never overwrites one: when it is full
/// the call is rejected.
pub fn record_pivotal(
    identity: &mut AgentIdentity,
    timestamp: i64,
    experience_hash: [u8; 32],
    impact_magnitude: u64,
) -> (r: Result<PivotalExperienceRecorded, AgentIdentityError>)
    requires
        old(identity).wf(),
    ensures
        final(identity).wf(),
        old(identity).pivotal_count >= MAX_PIVOTAL_EXPERIENCES ==> r == Err::<
            PivotalExperienceRecorded,
            AgentIdentityError,
        >(AgentIdentityError::TooManyPivotalExperiences) && *final(identity) == *old(identity),
        old(identity).pivotal_count < MAX_PIVOTAL_EXPERIENCES ==> r is Ok && final(identity)@
            == with_pivotal(old(identity)@, experience_hash@, impact_magnitude, timestamp),
        r matches Ok(event) ==> {
            &&& event.authority == old(identity).authority
            &&& event.pivotal_count == old(identity).pivotal_count + 1
            &&& event.experience_hash == experience_hash
            &&& event.impact_magnitude == impact_magnitude
            &&& event.timestamp == timestamp
        },
{
    if identity.pivotal_count as usize >= MAX_PIVOTAL_EXPERIENCES {
        return Err(AgentIdentityError::TooManyPivotalExperiences);
    }
    let index = identity.pivotal_count as usize;
    identity.pivotal_hashes[index] = experience_hash;
    identity.pivotal_impacts[index] = impact_magnitude;
    identity.pivotal_timestamps[index] = timestamp;
    identity.pivotal_count += 1;
    identity.updated_at = timestamp;

    proof {
        let post = with_pivotal(old(identity)@, experience_hash@, impact_magnitude, timestamp);
        assert(identity@.pivotal_hashes =~= post.pivotal_hashes);
        assert(identity@.dimension_names =~= post.dimension_names);
        assert(identity@.declarations =~= post.declarations);
        assert(identity@ =~= post);
    }
    Ok(
        PivotalExperienceRecorded {
            authority: identity.authority,
            pivotal_count: identity.pivotal_count,
            experience_hash,
            impact_magnitude,
            timestamp,
        },
    )
}

/// The notification that the record of `identity` was closed. The record
/// itself is released by its host.
pub fn close(identity: &AgentIdentity, timestamp: i64) -> (event: IdentityClosed)
    ensures
        event.authority == identity.authority,
        event.declaration_count == identity.declaration_count,
        event.timestamp == timestamp,
{
    IdentityClosed {
        authority: identity.authority,
        declaration_count: identity.declaration_count,
        timestamp,
    }
}

} // verus!
