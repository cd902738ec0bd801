//! Laws of the identity record, proved about the transitions that specify
//! the operations.

use crate::codec::declaration_digest;
use crate::constants::{MAX_PIVOTAL_EXPERIENCES, MAX_STORED_DECLARATIONS, MAX_WEIGHT};
use crate::error::AgentIdentityError;
use crate::evolution::{
    coherence, continuity, evolved_weight, lemma_squared_distance_zero, relaxed_self_model,
    squared_distance,
};
use crate::math::{floor_sqrt, lemma_floor_sqrt_exists, lemma_floor_sqrt_is};
use crate::provenance::{attests, signature_offsets, INLINE};
use crate::state::{zero_hash, IdentityView};
use crate::transitions::{
    declaration_refusal, declare_rejection, declared, evolved, evolved_weights, initial_identity,
    initialize_rejection, new_declaration, relaxed_self_models, ring_slot, set_weights_rejection,
    with_pivotal, with_weights,
};
use crate::verification::{
    coherence_consistent, first_failure, head_matches, link_holds, links_intact, retained,
    retained_count, CODE_VALID,
};
use vstd::prelude::*;

verus! {

/// The chain of `v` passes the chain checks of `verify`: before the first
/// declaration the current hash is zero, afterwards every retained
/// declaration points at its predecessor and the current hash is the
/// digest of the latest one.
pub open spec fn chain_consistent(v: IdentityView) -> bool {
    if v.declaration_count == 0 {
        v.current_hash == zero_hash()
    } else {
        links_intact(v) && head_matches(v)
    }
}

/// `a` and `b` have the same owner, address bump, vocabulary and creation
/// time.
pub open spec fn same_identity(a: IdentityView, b: IdentityView) -> bool {
    &&& a.authority == b.authority
    &&& a.bump == b.bump
    &&& a.dimension_count == b.dimension_count
    &&& a.dimension_names == b.dimension_names
    &&& a.vocabulary_hash == b.vocabulary_hash
    &&& a.created_at == b.created_at
}

/// `a` and `b` hold the same declaration chain.
pub open spec fn same_chain(a: IdentityView, b: IdentityView) -> bool {
    &&& a.declaration_count == b.declaration_count
    &&& a.declarations == b.declarations
    &&& a.genesis_hash == b.genesis_hash
    &&& a.current_hash == b.current_hash
    &&& a.merkle_root == b.merkle_root
    &&& a.continuity_score == b.continuity_score
    &&& a.last_declaration_slot == b.last_declaration_slot
}

/// Of two declarations made one after the other, the second is stored with
/// the digest of the first as its predecessor, and its own digest is the
/// current hash; the first is still in its slot.
pub proof fn law_successive_declarations_are_linked(
    start: IdentityView,
    first_index: u8,
    first_value: u64,
    first_content: Seq<u8>,
    first_signature: Seq<u8>,
    first_timestamp: i64,
    first_slot: u64,
    second_index: u8,
    second_value: u64,
    second_content: Seq<u8>,
    second_signature: Seq<u8>,
    second_timestamp: i64,
    second_slot: u64,
)
    requires
        start.wf(),
    ensures
        ({
            let middle = declared(
                start,
                first_index,
                first_value,
                first_content,
                first_signature,
                first_timestamp,
                first_slot,
            );
            let end = declared(
                middle,
                second_index,
                second_value,
                second_content,
                second_signature,
                second_timestamp,
                second_slot,
            );
            let first = end.declarations[ring_slot(start.declaration_count)];
            let second = end.declarations[ring_slot(middle.declaration_count)];
            &&& first == middle.declarations[ring_slot(start.declaration_count)]
            &&& declaration_digest(first) == middle.current_hash
            &&& second.previous_hash == declaration_digest(first)
            &&& declaration_digest(second) == end.current_hash
            &&& end.declaration_count == start.declaration_count + 2
        }),
{
}

/// A fresh record passes the chain checks.
pub proof fn law_initial_chain_is_consistent(
    authority: Seq<u8>,
    bump: u8,
    names: Seq<Seq<u8>>,
    weights: Seq<u64>,
    vocabulary_hash: Seq<u8>,
    timestamp: i64,
)
    ensures
        chain_consistent(
            initial_identity(authority, bump, names, weights, vocabulary_hash, timestamp),
        ),
{
}

/// A declaration keeps the chain consistent: what `verify` checks of the
/// chain holds after every declaration, however many came before and
/// however many have left the ring.
pub proof fn law_declare_keeps_chain_consistent(
    pre: IdentityView,
    dimension_index: u8,
    new_value: u64,
    content: Seq<u8>,
    signature: Seq<u8>,
    timestamp: i64,
    slot: u64,
)
    requires
        pre.wf(),
        chain_consistent(pre),
    ensures
        chain_consistent(
            declared(pre, dimension_index, new_value, content, signature, timestamp, slot),
        ),
{
    let post = declared(pre, dimension_index, new_value, content, signature, timestamp, slot);
    let added = new_declaration(pre, dimension_index, new_value, content, signature, timestamp);
    let count = pre.declaration_count as int;
    let capacity = MAX_STORED_DECLARATIONS as int;
    assert(post.declarations[ring_slot(pre.declaration_count)] == added);
    assert(head_matches(post));
    assert forall|k: int| 0 <= k < retained_count(post) implies link_holds(post, k) by {
        if count < capacity {
            // nothing has left the ring: slot k holds declaration k
            if k < count {
                assert(link_holds(pre, k));
                assert(retained(post, k) == retained(pre, k));
                if k > 0 {
                    assert(retained(post, k - 1) == retained(pre, k - 1));
                }
            } else if k > 0 {
                assert(retained(post, k - 1) == pre.declarations[(count - 1) % capacity]);
            }
        } else if k > 0 {
            // the oldest retained declaration has just been overwritten
            if k < capacity - 1 {
                assert(link_holds(pre, k + 1));
                assert(retained(post, k) == retained(pre, k + 1));
                assert(retained(post, k - 1) == retained(pre, k));
            } else {
                assert(retained(post, k) == added);
                assert(retained(post, k - 1) == pre.declarations[(count - 1) % capacity]);
            }
        }
    }
}

/// A record whose weights are in range, whose chain is consistent and
/// whose coherence score is within tolerance passes `verify` wherever its
/// address derives from its owner; and a record with a declaration that
/// passes has a consistent chain.
pub proof fn law_consistent_record_passes(v: IdentityView)
    ensures
        v.in_range() && chain_consistent(v) && coherence_consistent(v) ==> first_failure(v, true)
            == CODE_VALID,
        first_failure(v, true) == CODE_VALID && v.declaration_count > 0 ==> chain_consistent(v),
{
}

/// The genesis hash is set by the first declaration and by no other.
pub proof fn law_genesis_is_set_once(
    pre: IdentityView,
    dimension_index: u8,
    new_value: u64,
    content: Seq<u8>,
    signature: Seq<u8>,
    timestamp: i64,
    slot: u64,
)
    ensures
        ({
            let post = declared(
                pre,
                dimension_index,
                new_value,
                content,
                signature,
                timestamp,
                slot,
            );
            &&& pre.declaration_count == 0 ==> post.genesis_hash == post.current_hash
            &&& pre.declaration_count > 0 ==> post.genesis_hash == pre.genesis_hash
        }),
{
}

/// A declaration snaps weight and self-model of its dimension to the new
/// value and leaves every other dimension alone.
pub proof fn law_declare_snaps_one_dimension(
    pre: IdentityView,
    dimension_index: u8,
    new_value: u64,
    content: Seq<u8>,
    signature: Seq<u8>,
    timestamp: i64,
    slot: u64,
)
    requires
        pre.wf(),
        dimension_index < pre.dimension_count,
    ensures
        ({
            let post = declared(
                pre,
                dimension_index,
                new_value,
                content,
                signature,
                timestamp,
                slot,
            );
            &&& post.weights[dimension_index as int] == new_value
            &&& post.self_model[dimension_index as int] == new_value
            &&& forall|i: int|
                0 <= i < pre.weights.len() && i != dimension_index ==> post.weights[i]
                    == pre.weights[i] && post.self_model[i] == pre.self_model[i]
        }),
{
}

/// Right after a declaration, another one is rejected for its rate unless
/// at least two slots have passed: in particular, a second declaration in
/// the same slot is always rejected.
pub proof fn law_rate_limit_after_declaration(
    pre: IdentityView,
    dimension_index: u8,
    new_value: u64,
    content: Seq<u8>,
    signature: Seq<u8>,
    timestamp: i64,
    slot: u64,
    next_instructions: Seq<u8>,
    next_index: u8,
    next_value: u64,
    next_content: Seq<u8>,
    next_signature: Seq<u8>,
    next_slot: u64,
)
    requires
        next_slot < slot + 2,
    ensures
        declare_rejection(
            declared(pre, dimension_index, new_value, content, signature, timestamp, slot),
            next_instructions,
            next_index,
            next_value,
            next_content,
            next_signature,
            next_slot,
        ) == Some(AgentIdentityError::RateLimitExceeded),
{
}

/// Every operation keeps a well-formed record well formed: the vectors
/// keep their shape and every active weight and self-model entry stays
/// within `0..=10000`.
pub proof fn law_operations_keep_well_formed(
    pre: IdentityView,
    dimension_index: u8,
    value: u64,
    content: Seq<u8>,
    signature: Seq<u8>,
    timestamp: i64,
    slot: u64,
    signal: Seq<i64>,
    time_step: u64,
    weights: Seq<u64>,
)
    requires
        pre.wf(),
    ensures
        declaration_refusal(pre, dimension_index, value, slot) is None ==> declared(
            pre,
            dimension_index,
            value,
            content,
            signature,
            timestamp,
            slot,
        ).wf(),
        evolved(pre, signal, time_step, timestamp).wf(),
        set_weights_rejection(pre, weights) is None ==> with_weights(pre, weights, timestamp).wf(),
        pre.pivotal_count < MAX_PIVOTAL_EXPERIENCES ==> with_pivotal(
            pre,
            content,
            value,
            timestamp,
        ).wf(),
{
    let after = evolved(pre, signal, time_step, timestamp);
    assert forall|i: int| 0 <= i < after.dimension_count implies after.weights[i] <= MAX_WEIGHT
        && after.self_model[i] <= MAX_WEIGHT by {
        let w = evolved_weight(pre.weights[i], signal[i], time_step);
        assert(0 <= w <= MAX_WEIGHT);
        let m = relaxed_self_model(pre.self_model[i], after.weights[i], time_step);
        assert(0 <= m <= MAX_WEIGHT);
    }
}

/// A record as `initialize` creates it is well formed, and coherent: its
/// self-model equals its weights and its coherence is zero.
pub proof fn law_initial_identity_is_coherent(
    authority: Seq<u8>,
    bump: u8,
    names: Seq<Seq<u8>>,
    weights: Seq<u64>,
    vocabulary_hash: Seq<u8>,
    timestamp: i64,
)
    requires
        initialize_rejection(names.len(), weights) is None,
    ensures
        ({
            let v = initial_identity(authority, bump, names, weights, vocabulary_hash, timestamp);
            &&& v.wf()
            &&& v.self_model == v.weights
            &&& coherence(v.weights, v.self_model, v.dimension_count) == v.coherence_score == 0
            &&& continuity(v.declaration_count) == v.continuity_score
        }),
{
    let v = initial_identity(authority, bump, names, weights, vocabulary_hash, timestamp);
    lemma_squared_distance_zero(v.weights, v.self_model, v.dimension_count);
    lemma_floor_sqrt_is(0, 0);
    lemma_continuity_values();
}

/// After the weights were overwritten, weights and self-model coincide in
/// every active dimension, so the record's coherence is zero, as its
/// coherence score says.
pub proof fn law_set_weights_is_coherent(pre: IdentityView, new_weights: Seq<u64>, timestamp: i64)
    requires
        pre.wf(),
        new_weights.len() == pre.dimension_count,
    ensures
        ({
            let post = with_weights(pre, new_weights, timestamp);
            &&& post.coherence_score == 0
            &&& coherence(post.weights, post.self_model, post.dimension_count) == 0
            &&& forall|i: int|
                0 <= i < post.dimension_count ==> post.weights[i] == new_weights[i]
                    && post.self_model[i] == new_weights[i]
        }),
{
    let post = with_weights(pre, new_weights, timestamp);
    lemma_squared_distance_zero(post.weights, post.self_model, post.dimension_count);
    lemma_floor_sqrt_is(0, 0);
}

/// An evolution step of length zero changes neither weights nor
/// self-model nor the logical time. It recomputes the coherence score, so
/// the score too is unchanged wherever it was up to date, and then only the
/// time of the last change differs.
pub proof fn law_evolve_zero_step(pre: IdentityView, signal: Seq<i64>, timestamp: i64)
    requires
        pre.wf(),
        signal.len() == pre.dimension_count,
    ensures
        ({
            let post = evolved(pre, signal, 0, timestamp);
            &&& post.weights == pre.weights
            &&& post.self_model == pre.self_model
            &&& post.time == pre.time
            &&& post.coherence_score == coherence(pre.weights, pre.self_model, pre.dimension_count)
            &&& post.updated_at == timestamp
            &&& pre.coherence_score == coherence(pre.weights, pre.self_model, pre.dimension_count)
                ==> post == (IdentityView { updated_at: timestamp, ..pre })
        }),
{
    let weights = evolved_weights(pre, signal, 0);
    assert forall|i: int| 0 <= i < pre.weights.len() implies weights[i] == pre.weights[i] by {
        if i < pre.dimension_count {
            assert(signal[i] * 0 == 0) by (nonlinear_arith);
        }
    }
    assert(weights =~= pre.weights);
    let self_model = relaxed_self_models(pre, weights, 0);
    assert forall|i: int| 0 <= i < pre.self_model.len() implies self_model[i]
        == pre.self_model[i] by {
        if i < pre.dimension_count {
            let gap = 3000 * (weights[i] - pre.self_model[i]);
            assert(gap * 0 == 0) by (nonlinear_arith);
        }
    }
    assert(self_model =~= pre.self_model);
    let post = evolved(pre, signal, 0, timestamp);
    lemma_coherence_is_bounded(pre);
    if pre.coherence_score == coherence(pre.weights, pre.self_model, pre.dimension_count) {
        assert(post =~= (IdentityView { updated_at: timestamp, ..pre }));
    }
}

/// The squared distance of in-range vectors is at most `n * 10^8`.
proof fn lemma_squared_distance_bound(w: Seq<u64>, m: Seq<u64>, n: nat)
    requires
        n <= w.len(),
        n <= m.len(),
        forall|i: int| 0 <= i < n ==> w[i] <= 10_000 && m[i] <= 10_000,
    ensures
        squared_distance(w, m, n) <= n * 100_000_000,
    decreases n,
{
    if n > 0 {
        lemma_squared_distance_bound(w, m, (n - 1) as nat);
        let d = w[n - 1] - m[n - 1];
        assert(0 <= d * d <= 100_000_000) by (nonlinear_arith)
            requires
                -10_000 <= d <= 10_000,
        ;
    }
}

/// The coherence of a well-formed record is at most 40000: the distance
/// between opposite corners of the sixteen-dimensional weight cube.
pub proof fn lemma_coherence_is_bounded(v: IdentityView)
    requires
        v.wf(),
    ensures
        coherence(v.weights, v.self_model, v.dimension_count) <= 40_000,
{
    lemma_squared_distance_bound(v.weights, v.self_model, v.dimension_count);
    let d = squared_distance(v.weights, v.self_model, v.dimension_count) as int;
    lemma_floor_sqrt_exists(d);
    let r = floor_sqrt(d);
    if r > 40_000 {
        assert(r * r > 1_600_000_000) by (nonlinear_arith)
            requires
                r > 40_000,
        ;
    }
}

/// An evolution step moves the logical time forward by exactly its length
/// and never backwards; no other operation moves it.
pub proof fn law_time_is_monotone(
    pre: IdentityView,
    signal: Seq<i64>,
    time_step: u64,
    timestamp: i64,
    dimension_index: u8,
    value: u64,
    content: Seq<u8>,
    signature: Seq<u8>,
    slot: u64,
    weights: Seq<u64>,
)
    ensures
        evolved(pre, signal, time_step, timestamp).time == pre.time + time_step,
        evolved(pre, signal, time_step, timestamp).time >= pre.time,
        declared(pre, dimension_index, value, content, signature, timestamp, slot).time
            == pre.time,
        with_weights(pre, weights, timestamp).time == pre.time,
        with_pivotal(pre, content, value, timestamp).time == pre.time,
{
}

/// The continuity score before any declaration and after fifty.
proof fn lemma_continuity_values()
    ensures
        continuity(0) == 10_000,
        continuity(50) == 5_000,
{
    let first = continuity(0);
    assert(first == 10_000) by (nonlinear_arith)
        requires
            first == (10_000nat * 50) / (50 + 0nat),
    ;
    let fiftieth = continuity(50);
    assert(fiftieth == 5_000) by (nonlinear_arith)
        requires
            fiftieth == (10_000nat * 50) / (50 + 50nat),
    ;
}

/// The continuity score starts at 10000, is halved by the fiftieth
/// declaration, and never rises as declarations accumulate.
pub proof fn law_continuity_decreases(earlier: nat, later: nat)
    requires
        earlier <= later,
    ensures
        continuity(0) == 10_000,
        continuity(50) == 5_000,
        continuity(later) <= continuity(earlier) <= 10_000,
{
    lemma_continuity_values();
    let a = 50 + earlier as int;
    let b = 50 + later as int;
    assert(500_000int / b <= 500_000int / a <= 10_000) by (nonlinear_arith)
        requires
            50 <= a <= b,
    ;
}

/// Between two counts the continuity score falls strictly exactly when
/// the earlier score no longer fits under the later count's divisor; it
/// does so, in particular, between any two counts up to 657. The score is
/// a rounded-down quotient, so late in a long chain consecutive counts can
/// share a score.
pub proof fn law_continuity_strict_decrease(earlier: nat, later: nat)
    requires
        earlier < later,
    ensures
        continuity(later) < continuity(earlier) <==> continuity(earlier) * (50 + later) > 500_000,
        (50 + earlier) * (50 + later) <= 500_000 * (later - earlier) ==> continuity(later)
            < continuity(earlier),
        later <= 657 ==> continuity(later) < continuity(earlier),
{
    let a = 50 + earlier as int;
    let b = 50 + later as int;
    let qa = 500_000int / a;
    let qb = 500_000int / b;
    assert(qa * a <= 500_000 < (qa + 1) * a && qb * b <= 500_000 < (qb + 1) * b) by (nonlinear_arith)
        requires
            a >= 50,
            b >= 50,
            qa == 500_000int / a,
            qb == 500_000int / b,
    ;
    assert(qb < qa <==> qa * b > 500_000) by (nonlinear_arith)
        requires
            qb * b <= 500_000 < (qb + 1) * b,
            b > 0,
            qa >= 0,
            qb >= 0,
    ;
    if a * b <= 500_000 * (b - a) {
        assert(qa * b > 500_000) by (nonlinear_arith)
            requires
                a * b <= 500_000 * (b - a),
                500_000 < (qa + 1) * a,
                50 <= a < b,
                qa >= 0,
        ;
    }
    if later <= 657 {
        assert(a * b <= 500_000 * (b - a)) by (nonlinear_arith)
            requires
                50 <= a < b <= 707,
        ;
    }
}

/// The continuity score is positive up to 499950 declarations and zero
/// from then on.
pub proof fn law_continuity_positive(declaration_count: nat)
    ensures
        continuity(declaration_count) > 0 <==> declaration_count <= 499_950,
{
    let d = 50 + declaration_count as int;
    assert(500_000int / d > 0 <==> d <= 500_000) by (nonlinear_arith)
        requires
            d >= 50,
    ;
}

/// An operation that refers to another operation's bytes for its
/// signature, its key or its message attests nothing, whatever bytes it
/// holds itself.
pub proof fn law_borrowed_bytes_are_rejected(
    program_id: Seq<u8>,
    data: Seq<u8>,
    pubkey: Seq<u8>,
    message: Seq<u8>,
    signature: Seq<u8>,
)
    requires
        ({
            let offsets = signature_offsets(data);
            ||| offsets.signature_instruction_index != INLINE
            ||| offsets.public_key_instruction_index != INLINE
            ||| offsets.message_instruction_index != INLINE
        }),
    ensures
        !attests(program_id, data, pubkey, message, signature),
{
}

/// The pivotal log is append-only: a new entry goes behind the ones that
/// are there, and none of those changes.
pub proof fn law_pivotal_log_is_append_only(
    pre: IdentityView,
    experience_hash: Seq<u8>,
    impact_magnitude: u64,
    timestamp: i64,
)
    requires
        pre.wf(),
        pre.pivotal_count < MAX_PIVOTAL_EXPERIENCES,
    ensures
        ({
            let post = with_pivotal(pre, experience_hash, impact_magnitude, timestamp);
            &&& post.pivotal_count == pre.pivotal_count + 1
            &&& post.pivotal_hashes[pre.pivotal_count as int] == experience_hash
            &&& post.pivotal_impacts[pre.pivotal_count as int] == impact_magnitude
            &&& post.pivotal_timestamps[pre.pivotal_count as int] == timestamp
            &&& forall|k: int|
                0 <= k < pre.pivotal_count ==> post.pivotal_hashes[k] == pre.pivotal_hashes[k]
                    && post.pivotal_impacts[k] == pre.pivotal_impacts[k]
                    && post.pivotal_timestamps[k] == pre.pivotal_timestamps[k]
        }),
{
}

/// No operation changes the owner, the vocabulary or the creation time of
/// a record, and only a declaration touches the chain.
pub proof fn law_identity_is_fixed(
    pre: IdentityView,
    dimension_index: u8,
    value: u64,
    content: Seq<u8>,
    signature: Seq<u8>,
    timestamp: i64,
    slot: u64,
    signal: Seq<i64>,
    time_step: u64,
    weights: Seq<u64>,
)
    ensures
        same_identity(
            pre,
            declared(pre, dimension_index, value, content, signature, timestamp, slot),
        ),
        same_identity(pre, evolved(pre, signal, time_step, timestamp)),
        same_chain(pre, evolved(pre, signal, time_step, timestamp)),
        same_identity(pre, with_weights(pre, weights, timestamp)),
        same_chain(pre, with_weights(pre, weights, timestamp)),
        same_identity(pre, with_pivotal(pre, content, value, timestamp)),
        same_chain(pre, with_pivotal(pre, content, value, timestamp)),
{
}

} // verus!
