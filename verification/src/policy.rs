//! Vote-threshold and elimination policy.
//!
//! Pure functions computing vote thresholds, elimination limits, survival
//! floors and the AI-overflow check from configuration ratios and live
//! counts. Ratios are carried as integer per-mille values (`600` stands for
//! a ratio of `0.6`); all rounding is by ceiling, so thresholds err toward
//! requiring more votes or eliminations, never fewer.

use vstd::prelude::*;

verus! {

/// A ratio of one, in per-mille.
pub const RATIO_ONE: i64 = 1000;

/// Counts handed to the policy functions stay below this bound, so that
/// `count * RATIO_ONE` fits comfortably in an `i64`.
pub const MAX_COUNT: i64 = 0x1000_0000_0000;

pub open spec fn spec_clamp_ratio(ratio: int) -> int {
    if ratio < 0 {
        0
    } else if ratio > 1000 {
        1000
    } else {
        ratio
    }
}

pub open spec fn spec_ceil_ratio(total: int, ratio: int) -> int {
    (total * spec_clamp_ratio(ratio) + 999) / 1000
}

pub open spec fn spec_max(a: int, b: int) -> int {
    if a >= b {
        a
    } else {
        b
    }
}

pub open spec fn spec_vote_threshold(online_count: int, ratio: int, min_threshold: int) -> int {
    spec_max(min_threshold, spec_ceil_ratio(online_count, ratio))
}

pub open spec fn spec_human_eliminated_limit(human_total: int, ratio: int) -> int {
    spec_max(1, spec_ceil_ratio(human_total, ratio))
}

pub open spec fn spec_min_human_survive(human_total: int, ratio: int) -> int {
    spec_max(1, spec_ceil_ratio(human_total, ratio))
}

pub open spec fn spec_ai_overflow(ai_alive: int, human_alive: int, delta: int) -> bool {
    ai_alive > human_alive + spec_max(delta, 0)
}

/// `spec_ceil_ratio` is the exact ceiling of `total * ratio`, with the ratio
/// clamped into `[0, 1]`: the least integer `c` with
/// `c * 1000 >= total * clamped`.
pub proof fn lemma_ceil_ratio_is_ceiling(total: int, ratio: int)
    requires
        0 <= total,
    ensures
        spec_ceil_ratio(total, ratio) * 1000 >= total * spec_clamp_ratio(ratio),
        (spec_ceil_ratio(total, ratio) - 1) * 1000 < total * spec_clamp_ratio(ratio),
{
    let c = spec_clamp_ratio(ratio);
    let a = total * c + 999;
    vstd::arithmetic::div_mod::lemma_fundamental_div_mod(a, 1000);
    vstd::arithmetic::div_mod::lemma_mod_bound(a, 1000);
}

/// Clamps a per-mille ratio into `[0, RATIO_ONE]`.
pub fn clamp_ratio(ratio: i64) -> (r: i64)
    ensures
        r == spec_clamp_ratio(ratio as int),
{
    if ratio < 0 {
        0
    } else if ratio > RATIO_ONE {
        RATIO_ONE
    } else {
        ratio
    }
}

/// Ceiling of `total * ratio`, with the per-mille ratio clamped into `[0, 1]`.
pub fn ceil_ratio(total: i64, ratio: i64) -> (r: i64)
    requires
        0 <= total <= MAX_COUNT,
    ensures
        r == spec_ceil_ratio(total as int, ratio as int),
{
    let clamped = clamp_ratio(ratio);
    proof {
        vstd::arithmetic::mul::lemma_mul_upper_bound(
            total as int,
            MAX_COUNT as int,
            clamped as int,
            1000,
        );
        vstd::arithmetic::mul::lemma_mul_nonnegative(total as int, clamped as int);
    }
    (total * clamped + 999) / 1000
}

/// Number of votes needed to eliminate an entry: at least `min_threshold`,
/// and at least the clamped ratio of the online count, rounded up.
pub fn vote_threshold(online_count: i64, ratio: i64, min_threshold: i64) -> (r: i64)
    requires
        0 <= online_count <= MAX_COUNT,
    ensures
        r == spec_vote_threshold(online_count as int, ratio as int, min_threshold as int),
{
    let scaled = ceil_ratio(online_count, ratio);
    if min_threshold >= scaled {
        min_threshold
    } else {
        scaled
    }
}

/// Number of eliminated human entries at which the room is lost: at least 1,
/// and at least the clamped ratio of the human total, rounded up.
pub fn human_eliminated_limit(human_total: i64, ratio: i64) -> (r: i64)
    requires
        0 <= human_total <= MAX_COUNT,
    ensures
        r == spec_human_eliminated_limit(human_total as int, ratio as int),
{
    let scaled = ceil_ratio(human_total, ratio);
    if scaled >= 1 {
        scaled
    } else {
        1
    }
}

/// Number of surviving human entries needed for a victory: at least 1,
/// and at least the clamped ratio of the human total, rounded up.
pub fn min_human_survive(human_total: i64, ratio: i64) -> (r: i64)
    requires
        0 <= human_total <= MAX_COUNT,
    ensures
        r == spec_min_human_survive(human_total as int, ratio as int),
{
    let scaled = ceil_ratio(human_total, ratio);
    if scaled >= 1 {
        scaled
    } else {
        1
    }
}

/// Whether the live AI entries outnumber the live human entries by more than
/// the configured slack `delta` (negative slack counts as zero).
pub fn ai_overflow(ai_alive: i64, human_alive: i64, delta: i64) -> (r: bool)
    requires
        -MAX_COUNT <= human_alive <= MAX_COUNT,
        delta <= MAX_COUNT,
    ensures
        r == spec_ai_overflow(ai_alive as int, human_alive as int, delta as int),
{
    let slack = if delta >= 0 {
        delta
    } else {
        0
    };
    ai_alive > human_alive + slack
}

} // verus!
