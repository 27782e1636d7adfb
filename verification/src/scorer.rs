//! The Gv scoring stage: weighted sum of Phoenix predictions, logistic
//! squashing, multiplier shaping, and the batch entry points.
//!
//! Each candidate is adjusted independently: the stage neither introduces
//! nor depends on ordering between candidates.

use vstd::arithmetic::div_mod::lemma_div_is_ordered;
use vstd::arithmetic::div_mod::lemma_div_pos_is_pos;
use vstd::arithmetic::mul::lemma_mul_inequality;
use vstd::arithmetic::mul::lemma_mul_nonnegative;
use vstd::arithmetic::mul::lemma_mul_upper_bound;
use vstd::prelude::*;

use crate::candidate::in_unit;
use crate::candidate::PhoenixScores;
use crate::candidate::PostCandidate;
use crate::candidate::ScoreDelta;
use crate::candidate::ScoredPostsQuery;
use crate::params::GV_BIAS;
use crate::params::GV_BLOCK_AUTHOR_W;
use crate::params::GV_DWELL_W;
use crate::params::GV_FAVORITE_W;
use crate::params::GV_FLOOR;
use crate::params::GV_FOLLOW_AUTHOR_W;
use crate::params::GV_MUTE_AUTHOR_W;
use crate::params::GV_NOT_INTERESTED_W;
use crate::params::GV_QUOTE_W;
use crate::params::GV_REPLY_W;
use crate::params::GV_REPORT_W;
use crate::params::GV_RETWEET_W;
use crate::params::GV_SHARE_W;
use crate::params::GV_SIGMOID_K;
use crate::params::GV_STRENGTH;
use crate::params::MAX_BASE;
use crate::params::MULT_MAX;
use crate::params::MULT_MIN;
use crate::params::SCALE;
use crate::params::SCALE_SQ;
use crate::sigmoid::lemma_sigmoid_zero;
use crate::sigmoid::sigmoid_micros;
use crate::sigmoid::sigmoid_micros_spec;

verus! {

/// Stateless scoring stage: consumes a batch of candidates, produces the
/// recomputed weighted scores, and merges them back one field at a time.
pub struct GvScorer;

/// An optional score, defaulted to the neutral 0.0 when absent.
pub open spec fn score_or_zero(v: Option<i64>) -> int {
    match v {
        Some(x) => x as int,
        None => 0,
    }
}

/// The weighted sum of the positive value signals, in micro-units squared
/// (a micro-unit probability times a micro-unit weight).
pub open spec fn positive_signal(s: PhoenixScores) -> int {
    score_or_zero(s.favorite_score) * GV_FAVORITE_W + score_or_zero(s.reply_score) * GV_REPLY_W
        + score_or_zero(s.retweet_score) * GV_RETWEET_W + score_or_zero(s.share_score)
        * GV_SHARE_W + score_or_zero(s.dwell_score) * GV_DWELL_W + score_or_zero(s.quote_score)
        * GV_QUOTE_W + score_or_zero(s.follow_author_score) * GV_FOLLOW_AUTHOR_W
}

/// The weighted sum of the negative / regret signals, in micro-units
/// squared.
pub open spec fn negative_signal(s: PhoenixScores) -> int {
    score_or_zero(s.not_interested_score) * GV_NOT_INTERESTED_W + score_or_zero(
        s.mute_author_score,
    ) * GV_MUTE_AUTHOR_W + score_or_zero(s.block_author_score) * GV_BLOCK_AUTHOR_W + score_or_zero(
        s.report_score,
    ) * GV_REPORT_W
}

/// The raw net-value signal in micro-units squared: positive minus
/// negative weighted sums, plus the bias.
pub open spec fn raw_signal(s: PhoenixScores) -> int {
    positive_signal(s) - negative_signal(s) + GV_BIAS * SCALE
}

/// Steepens the raw signal by the sigmoid constant and brings it back to
/// micro-units, truncating toward zero as the executable arithmetic does.
pub open spec fn steepened(raw: int) -> int {
    if raw >= 0 {
        GV_SIGMOID_K * raw / (SCALE_SQ as int)
    } else {
        -(GV_SIGMOID_K * (-raw) / (SCALE_SQ as int))
    }
}

/// The Gv value of a set of Phoenix scores: the steepened raw signal put
/// through the logistic squashing, in micro-units, strictly inside the
/// unit interval.
pub open spec fn gv_of(s: PhoenixScores) -> int {
    sigmoid_micros_spec(steepened(raw_signal(s)))
}

/// A Gv value clamped into the unit interval.
pub open spec fn clamp_unit(g: int) -> int {
    if g < 0 {
        0
    } else if g > SCALE {
        SCALE as int
    } else {
        g
    }
}

/// The floor-bounded rescaling of a Gv value: `floor + (1 - floor) * gv`,
/// in micro-units.
pub open spec fn shaped_of(g: int) -> int {
    GV_FLOOR + (SCALE - GV_FLOOR) * clamp_unit(g) / (SCALE as int)
}

/// The multiplicative adjustment for a Gv value, in micro-units:
/// `1 + strength * (shaped - 0.5) * 2`, written over a common denominator
/// so every quantity stays nonnegative.
pub open spec fn multiplier_of(g: int) -> int {
    (SCALE_SQ + 2 * GV_STRENGTH * shaped_of(g) - GV_STRENGTH * SCALE) / (SCALE as int)
}

/// A base score scaled by a micro-unit multiplier, truncated toward zero.
pub open spec fn adjusted_value(base: int, m: int) -> int {
    if base >= 0 {
        base * m / (SCALE as int)
    } else {
        -((-base) * m / (SCALE as int))
    }
}

/// The adjusted weighted score of one candidate, in micro-units.
pub open spec fn adjusted_of(c: PostCandidate) -> int {
    adjusted_value(score_or_zero(c.weighted_score), multiplier_of(gv_of(c.phoenix_scores)))
}

/// The partial result the stage returns for one candidate.
pub open spec fn delta_of(c: PostCandidate) -> ScoreDelta {
    ScoreDelta { weighted_score: Some(adjusted_of(c) as i64) }
}

/// The partial results for a whole batch, candidate by candidate.
pub open spec fn deltas_of(cs: Seq<PostCandidate>) -> Seq<ScoreDelta> {
    cs.map_values(|c: PostCandidate| delta_of(c))
}

/// The defaulted accessor: an absent optional score reads as the neutral
/// 0.0.
pub fn get(v: Option<i64>) -> (r: i64)
    ensures
        r as int == score_or_zero(v),
{
    match v {
        Some(x) => x,
        None => 0,
    }
}

/// One weighted term of the Gv sum: a unit-interval score (absent reads
/// as zero) times a nonnegative micro-unit weight.
fn weighted(v: Option<i64>, w: i64) -> (r: i64)
    requires
        in_unit(v),
        0 <= w <= 2_200_000,
    ensures
        r as int == score_or_zero(v) * w,
        0 <= r <= SCALE * w,
{
    let x: i64 = get(v);
    proof {
        lemma_mul_nonnegative(x as int, w as int);
        lemma_mul_upper_bound(x as int, SCALE as int, w as int, 2_200_000int);
        lemma_mul_inequality(x as int, SCALE as int, w as int);
    }
    x * w
}

/// Steepens a raw micro-unit-squared signal into a micro-unit exponent.
fn steepen(raw: i64) -> (y: i64)
    requires
        -6_200_000_000_000 <= raw <= 5_400_000_000_000,
    ensures
        y as int == steepened(raw as int),
        -20_000_000 < y < 20_000_000,
{
    if raw >= 0 {
        proof {
            lemma_mul_nonnegative(GV_SIGMOID_K as int, raw as int);
            lemma_mul_upper_bound(
                GV_SIGMOID_K as int,
                3_000_000int,
                raw as int,
                5_400_000_000_000int,
            );
        }
        let p: i128 = (GV_SIGMOID_K as i128) * (raw as i128);
        proof {
            lemma_div_pos_is_pos(p as int, SCALE_SQ as int);
            lemma_div_is_ordered(p as int, 16_200_000_000_000_000_000int, SCALE_SQ as int);
        }
        let q: i128 = p / 1_000_000_000_000;
        q as i64
    } else {
        proof {
            lemma_mul_nonnegative(GV_SIGMOID_K as int, -(raw as int));
            lemma_mul_upper_bound(
                GV_SIGMOID_K as int,
                3_000_000int,
                -(raw as int),
                6_200_000_000_000int,
            );
        }
        let p: i128 = (GV_SIGMOID_K as i128) * ((-raw) as i128);
        proof {
            lemma_div_pos_is_pos(p as int, SCALE_SQ as int);
            lemma_div_is_ordered(p as int, 18_600_000_000_000_000_000int, SCALE_SQ as int);
        }
        let q: i128 = p / 1_000_000_000_000;
        -(q as i64)
    }
}

/// Computes the Gv value of a set of Phoenix predictions: the weighted
/// net-value signal put through the logistic squashing. Pure, total on
/// well-formed inputs, and strictly inside the open unit interval.
pub fn compute_gv(s: &PhoenixScores) -> (gv: i64)
    requires
        s.wf(),
    ensures
        gv as int == gv_of(*s),
        0 < gv < SCALE,
{
    let positive: i64 = weighted(s.favorite_score, GV_FAVORITE_W) + weighted(
        s.reply_score,
        GV_REPLY_W,
    ) + weighted(s.retweet_score, GV_RETWEET_W) + weighted(s.share_score, GV_SHARE_W) + weighted(
        s.dwell_score,
        GV_DWELL_W,
    ) + weighted(s.quote_score, GV_QUOTE_W) + weighted(s.follow_author_score, GV_FOLLOW_AUTHOR_W);

    let negative: i64 = weighted(s.not_interested_score, GV_NOT_INTERESTED_W) + weighted(
        s.mute_author_score,
        GV_MUTE_AUTHOR_W,
    ) + weighted(s.block_author_score, GV_BLOCK_AUTHOR_W) + weighted(s.report_score, GV_REPORT_W);

    let raw: i64 = (positive - negative) + GV_BIAS * SCALE;
    let y: i64 = steepen(raw);
    sigmoid_micros(y)
}

/// Maps a Gv value to its multiplicative adjustment: clamp into the unit
/// interval, rescale above the exploration floor, recenter around 1.0.
/// Total: out-of-range input is clamped, never rejected.
pub fn gv_multiplier(gv: i64) -> (m: i64)
    ensures
        m as int == multiplier_of(gv as int),
        MULT_MIN <= m <= MULT_MAX,
{
    let g: i64 = if gv < 0 {
        0
    } else if gv > SCALE {
        SCALE
    } else {
        gv
    };
    let gu: u64 = g as u64;
    proof {
        lemma_div_pos_is_pos(800_000 * (gu as int), SCALE as int);
        lemma_div_is_ordered(800_000 * (gu as int), 800_000_000_000int, SCALE as int);
    }
    let sh: u64 = 200_000 + 800_000 * gu / 1_000_000;
    proof {
        assert(sh as int == shaped_of(gv as int));
        let num = SCALE_SQ + 2 * GV_STRENGTH * (sh as int) - GV_STRENGTH * SCALE;
        lemma_div_is_ordered(850_000_000_000int, num, SCALE as int);
        lemma_div_is_ordered(num, 1_250_000_000_000int, SCALE as int);
    }
    let m64: u64 = (1_000_000_000_000 + 500_000 * sh - 250_000_000_000) / 1_000_000;
    m64 as i64
}

/// Scales a base score by a micro-unit multiplier, truncating toward
/// zero. The bounds keep the product inside `i64`.
pub fn apply_multiplier(base: i64, m: i64) -> (r: i64)
    requires
        -MAX_BASE <= base <= MAX_BASE,
        0 <= m <= MULT_MAX,
    ensures
        r as int == adjusted_value(base as int, m as int),
{
    if base >= 0 {
        proof {
            lemma_mul_nonnegative(base as int, m as int);
            lemma_mul_upper_bound(base as int, MAX_BASE as int, m as int, MULT_MAX as int);
        }
        let p: u128 = (base as u128) * (m as u128);
        proof {
            lemma_div_pos_is_pos(p as int, SCALE as int);
            lemma_div_is_ordered(p as int, 8_750_000_000_000_000_000_000_000int, SCALE as int);
        }
        (p / 1_000_000) as i64
    } else {
        let mag: i64 = -base;
        proof {
            lemma_mul_nonnegative(mag as int, m as int);
            lemma_mul_upper_bound(mag as int, MAX_BASE as int, m as int, MULT_MAX as int);
        }
        let p: u128 = (mag as u128) * (m as u128);
        proof {
            lemma_div_pos_is_pos(p as int, SCALE as int);
            lemma_div_is_ordered(p as int, 8_750_000_000_000_000_000_000_000int, SCALE as int);
        }
        -((p / 1_000_000) as i64)
    }
}

impl GvScorer {
    /// Scores a batch: for each candidate, the recomputed weighted score
    /// is its base score (absent reads as 0.0) times the Gv multiplier.
    /// The query context is not read; the input batch is not changed; the
    /// result keeps the batch order and never reports a failure.
    pub fn score(&self, _query: &ScoredPostsQuery, candidates: &Vec<PostCandidate>) -> (res: Result<
        Vec<ScoreDelta>,
        String,
    >)
        requires
            forall|j: int|
                0 <= j < candidates@.len() ==> (#[trigger] candidates@[j]).wf(),
        ensures
            res is Ok,
            res matches Ok(out) ==> out@ == deltas_of(candidates@),
    {
        let mut out: Vec<ScoreDelta> = Vec::new();
        let mut idx: usize = 0;
        while idx < candidates.len()
            invariant
                idx <= candidates@.len(),
                forall|j: int|
                    0 <= j < candidates@.len() ==> (#[trigger] candidates@[j]).wf(),
                out@.len() == idx as int,
                forall|j: int|
                    0 <= j < idx as int ==> out@[j] == delta_of(candidates@[j]),
            decreases candidates@.len() - idx,
        {
            let c: PostCandidate = candidates[idx];
            let base: i64 = get(c.weighted_score);
            let gv: i64 = compute_gv(&c.phoenix_scores);
            let m: i64 = gv_multiplier(gv);
            let adjusted: i64 = apply_multiplier(base, m);
            proof {
                assert(adjusted as int == adjusted_of(c));
            }
            out.push(ScoreDelta { weighted_score: Some(adjusted) });
            idx = idx + 1;
        }
        proof {
            assert(out@ =~= deltas_of(candidates@));
        }
        Ok(out)
    }

    /// Merges one partial result back into the authoritative candidate:
    /// copies the weighted score and touches nothing else.
    pub fn update(&self, candidate: &mut PostCandidate, scored: ScoreDelta)
        ensures
            final (candidate).weighted_score == scored.weighted_score,
            final (candidate).phoenix_scores == old(candidate).phoenix_scores,
    {
        candidate.weighted_score = scored.weighted_score;
    }
}

/// With every Phoenix field absent the weighted sums vanish, so the Gv
/// value is the sigmoid of the bias alone: exactly half a unit with the
/// compiled-in zero bias.
pub proof fn lemma_all_absent_is_neutral(s: PhoenixScores)
    requires
        s.favorite_score is None,
        s.reply_score is None,
        s.retweet_score is None,
        s.share_score is None,
        s.dwell_score is None,
        s.quote_score is None,
        s.follow_author_score is None,
        s.not_interested_score is None,
        s.mute_author_score is None,
        s.block_author_score is None,
        s.report_score is None,
    ensures
        gv_of(s) == sigmoid_micros_spec(steepened(GV_BIAS * SCALE)),
        gv_of(s) == SCALE / 2,
{
    assert(positive_signal(s) == 0);
    assert(negative_signal(s) == 0);
    assert(steepened(0) == 0) by {
        assert(GV_SIGMOID_K * 0int == 0);
        assert(0int / (SCALE_SQ as int) == 0);
    }
    lemma_sigmoid_zero();
}

/// The multiplier's floor and ceiling are fixed by the constants:
/// `1 + strength * (floor - 0.5) * 2` at a Gv of zero, and
/// `1 + strength * 0.5 * 2` at a Gv of one unit.
pub proof fn lemma_multiplier_endpoints()
    ensures
        multiplier_of(0) == MULT_MIN,
        multiplier_of(SCALE as int) == MULT_MAX,
        MULT_MIN * (SCALE as int) == SCALE_SQ + 2 * GV_STRENGTH * GV_FLOOR - GV_STRENGTH * SCALE,
        MULT_MAX == SCALE + GV_STRENGTH,
{
    assert((SCALE - GV_FLOOR) * 0int == 0);
    assert(0int / (SCALE as int) == 0);
    assert(shaped_of(0) == GV_FLOOR);
    assert((800_000 * 1_000_000int) / 1_000_000int == 800_000);
    assert(shaped_of(SCALE as int) == SCALE);
    assert(850_000_000_000int / 1_000_000int == 850_000);
    assert(1_250_000_000_000int / 1_000_000int == 1_250_000);
}

/// The multiplier is monotonically non-decreasing in the Gv value.
pub proof fn lemma_multiplier_monotone(a: int, b: int)
    requires
        a <= b,
    ensures
        multiplier_of(a) <= multiplier_of(b),
{
    let ca = clamp_unit(a);
    let cb = clamp_unit(b);
    assert(ca <= cb);
    lemma_mul_inequality(ca, cb, SCALE - GV_FLOOR);
    lemma_div_is_ordered((SCALE - GV_FLOOR) * ca, (SCALE - GV_FLOOR) * cb, SCALE as int);
    assert(shaped_of(a) <= shaped_of(b));
    lemma_mul_inequality(shaped_of(a), shaped_of(b), 2 * GV_STRENGTH);
    lemma_div_is_ordered(
        SCALE_SQ + 2 * GV_STRENGTH * shaped_of(a) - GV_STRENGTH * SCALE,
        SCALE_SQ + 2 * GV_STRENGTH * shaped_of(b) - GV_STRENGTH * SCALE,
        SCALE as int,
    );
}

/// Out-of-range Gv values are clamped, never rejected: below zero the
/// multiplier equals its value at zero, above one unit its value at one
/// unit.
pub proof fn lemma_multiplier_clamps(g: int)
    ensures
        g <= 0 ==> multiplier_of(g) == multiplier_of(0),
        g >= SCALE ==> multiplier_of(g) == multiplier_of(SCALE as int),
{
    assert(g <= 0 ==> clamp_unit(g) == clamp_unit(0));
    assert(g >= SCALE ==> clamp_unit(g) == clamp_unit(SCALE as int));
}

/// Batch scoring is order-independent: permuting the input candidates
/// permutes the partial results identically, with no cross-candidate
/// effect.
pub proof fn lemma_score_order_independent(
    cs: Seq<PostCandidate>,
    permuted: Seq<PostCandidate>,
    perm: Seq<int>,
)
    requires
        permuted.len() == cs.len(),
        perm.len() == cs.len(),
        forall|i: int| 0 <= i < cs.len() ==> 0 <= #[trigger] perm[i] < cs.len(),
        forall|i: int| 0 <= i < cs.len() ==> permuted[i] == cs[#[trigger] perm[i]],
    ensures
        deltas_of(permuted).len() == cs.len(),
        forall|i: int|
            0 <= i < cs.len() ==> deltas_of(permuted)[i] == deltas_of(cs)[#[trigger] perm[i]],
{
    assert forall|i: int|
        0 <= i < cs.len() implies deltas_of(permuted)[i] == deltas_of(cs)[#[trigger] perm[i]] by {
        assert(deltas_of(permuted)[i] == delta_of(permuted[i]));
        assert(deltas_of(cs)[perm[i]] == delta_of(cs[perm[i]]));
    }
}

/// A missing base score reads as 0.0, so the adjusted score is exactly
/// zero whatever the Gv value.
pub proof fn lemma_missing_base_scores_zero(s: PhoenixScores)
    ensures
        delta_of(
            PostCandidate { weighted_score: None, phoenix_scores: s },
        ).weighted_score == Some(0i64),
{
    let m = multiplier_of(gv_of(s));
    assert(0int * m == 0);
    assert(0int / (SCALE as int) == 0);
}

} // verus!

