//! The numeric core: the evolution step of weights and self-model, and the
//! scores derived from them.

use crate::constants::{CONTINUITY_HALF_LIFE, MAX_DIMENSIONS, MAX_WEIGHT, SELF_MODEL_RATE};
use crate::math::{clamp, clamp_spec, div_toward_zero, floor_sqrt, integer_sqrt};
use vstd::prelude::*;

verus! {

/// Continuity after `declaration_count` declarations:
/// `(10000 * 50) / (50 + declaration_count)`, rounded down.
pub open spec fn continuity(declaration_count: nat) -> nat {
    (10_000nat * 50) / (50 + declaration_count)
}

/// Sum of the squared differences of the first `n` entries of `w` and `m`.
pub open spec fn squared_distance(w: Seq<u64>, m: Seq<u64>, n: nat) -> nat
    decreases n,
{
    if n == 0 {
        0
    } else {
        squared_distance(w, m, (n - 1) as nat) + ((w[n - 1] - m[n - 1]) * (w[n - 1] - m[n
            - 1])) as nat
    }
}

/// Coherence of the first `n` dimensions: the Euclidean distance between
/// weights and self-model, rounded down. A squared distance beyond 64 bits
/// counts as `u64::MAX`; in-range vectors never come near it.
pub open spec fn coherence(w: Seq<u64>, m: Seq<u64>, n: nat) -> nat {
    let d = squared_distance(w, m, n);
    floor_sqrt(if d > u64::MAX { u64::MAX as int } else { d as int }) as nat
}

/// A weight after one explicit Euler step driven by `signal`:
/// `clamp(w + (signal * time_step) / 10000, 0, 10000)`, the quotient
/// rounded toward zero.
pub open spec fn evolved_weight(w: u64, signal: i64, time_step: u64) -> int {
    clamp_spec(
        w + div_toward_zero(signal * time_step, MAX_WEIGHT as int),
        0,
        MAX_WEIGHT as int,
    )
}

/// A self-model entry after relaxing toward the weight `w` at rate 0.3:
/// `clamp(m + (3000 * (w - m) * time_step) / (10000 * 10000), 0, 10000)`,
/// the quotient rounded toward zero.
pub open spec fn relaxed_self_model(m: u64, w: u64, time_step: u64) -> int {
    clamp_spec(
        m + div_toward_zero(SELF_MODEL_RATE * (w - m) * time_step, MAX_WEIGHT * MAX_WEIGHT),
        0,
        MAX_WEIGHT as int,
    )
}

/// Adding one more dimension adds its squared difference.
proof fn lemma_squared_distance_step(w: Seq<u64>, m: Seq<u64>, n: nat, diff: u64)
    requires
        n < w.len(),
        n < m.len(),
        diff == w[n as int] - m[n as int] || diff == m[n as int] - w[n as int],
    ensures
        squared_distance(w, m, n + 1) == squared_distance(w, m, n) + diff * diff,
{
    let a = w[n as int] as int;
    let b = m[n as int] as int;
    assert((a - b) * (a - b) == (b - a) * (b - a)) by (nonlinear_arith);
    assert((a - b) * (a - b) >= 0) by (nonlinear_arith);
}

/// Vectors that agree on their first `n` entries are at distance zero.
pub proof fn lemma_squared_distance_zero(w: Seq<u64>, m: Seq<u64>, n: nat)
    requires
        n <= w.len(),
        n <= m.len(),
        forall|i: int| 0 <= i < n ==> w[i] == m[i],
    ensures
        squared_distance(w, m, n) == 0,
    decreases n,
{
    if n > 0 {
        lemma_squared_distance_zero(w, m, (n - 1) as nat);
        assert(w[n - 1] - m[n - 1] == 0);
    }
}

/// Continuity score after `declaration_count` declarations.
pub fn compute_continuity_score(declaration_count: u32) -> (score: u64)
    ensures
        score == continuity(declaration_count as nat),
        score <= MAX_WEIGHT,
{
    let divisor = CONTINUITY_HALF_LIFE + declaration_count as u64;
    assert(500_000int / divisor as int <= 10_000) by (nonlinear_arith)
        requires
            divisor >= 50,
    ;
    let scale = MAX_WEIGHT * CONTINUITY_HALF_LIFE;
    assert(scale == 500_000);
    scale / divisor
}

/// Coherence score of the first `count` dimensions.
pub fn compute_coherence(
    weights: &[u64; MAX_DIMENSIONS],
    self_model: &[u64; MAX_DIMENSIONS],
    count: u8,
) -> (score: u64)
    requires
        count <= MAX_DIMENSIONS,
    ensures
        score == coherence(weights@, self_model@, count as nat),
{
    let mut sum_sq: u64 = 0;
    let mut i: usize = 0;
    while i < count as usize
        invariant
            i <= count <= MAX_DIMENSIONS,
            sum_sq == if squared_distance(weights@, self_model@, i as nat) > u64::MAX {
                u64::MAX as int
            } else {
                squared_distance(weights@, self_model@, i as nat) as int
            },
        decreases count - i,
    {
        let diff = if weights[i] >= self_model[i] {
            weights[i] - self_model[i]
        } else {
            self_model[i] - weights[i]
        };
        let square = match diff.checked_mul(diff) {
            Some(square) => square,
            None => u64::MAX,
        };
        proof {
            lemma_squared_distance_step(weights@, self_model@, i as nat, diff);
        }
        sum_sq = sum_sq.saturating_add(square);
        i += 1;
    }
    integer_sqrt(sum_sq)
}

/// One Euler step of a single weight.
pub fn evolve_weight(weight: u64, signal: i64, time_step: u64) -> (next: u64)
    ensures
        next == evolved_weight(weight, signal, time_step),
        next <= MAX_WEIGHT,
{
    assert(-0x8000_0000_0000_0000_0000_0000_0000_0000 <= signal * time_step
        <= 0x7fff_ffff_ffff_ffff_0000_0000_0000_0000) by (nonlinear_arith)
        requires
            -0x8000_0000_0000_0000 <= signal <= 0x7fff_ffff_ffff_ffff,
            0 <= time_step <= 0xffff_ffff_ffff_ffff,
    ;
    let product: i128 = signal as i128 * time_step as i128;
    let delta: i128 = product / MAX_WEIGHT as i128;
    clamp(weight as i128 + delta, 0, MAX_WEIGHT as i128) as u64
}

/// One relaxation step of a single self-model entry toward `weight`.
pub fn relax_self_model(self_model: u64, weight: u64, time_step: u64) -> (next: u64)
    requires
        self_model <= MAX_WEIGHT,
        weight <= MAX_WEIGHT,
    ensures
        next == relaxed_self_model(self_model, weight, time_step),
        next <= MAX_WEIGHT,
{
    let gap: i128 = SELF_MODEL_RATE as i128 * (weight as i128 - self_model as i128);
    assert(-0x1_0000_0000_0000_0000_0000_0000 <= gap * time_step
        <= 0x1_0000_0000_0000_0000_0000_0000) by (nonlinear_arith)
        requires
            -30_000_000 <= gap <= 30_000_000,
            0 <= time_step <= 0xffff_ffff_ffff_ffff,
    ;
    let product: i128 = gap * time_step as i128;
    let scale: i128 = MAX_WEIGHT as i128;
    let delta: i128 = product / (scale * scale);
    clamp(self_model as i128 + delta, 0, MAX_WEIGHT as i128) as u64
}

} // verus!
