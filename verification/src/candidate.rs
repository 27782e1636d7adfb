//! The data the scoring stage reads and writes.
//!
//! Probability-like values and scores are fixed-point micro-units
//! (`1_000_000` is the real value 1.0). Each Phoenix field is an optional
//! probability in the unit interval; an absent field contributes a neutral
//! 0.0 to the weighted sum.

use vstd::prelude::*;

use crate::params::MAX_BASE;
use crate::params::SCALE;

verus! {

/// Holds an optional probability-like value in the unit interval:
/// absent, or between 0 and [`SCALE`] micro-units inclusive.
pub open spec fn in_unit(v: Option<i64>) -> bool {
    match v {
        Some(x) => 0 <= x <= SCALE,
        None => true,
    }
}

/// Predicted per-candidate probabilities of specific user engagement or
/// negative-feedback actions, produced upstream. Each field is optional;
/// values are micro-unit probabilities in the unit interval.
#[derive(Clone, Copy)]
pub struct PhoenixScores {
    pub favorite_score: Option<i64>,
    pub reply_score: Option<i64>,
    pub retweet_score: Option<i64>,
    pub share_score: Option<i64>,
    pub dwell_score: Option<i64>,
    pub quote_score: Option<i64>,
    pub follow_author_score: Option<i64>,
    pub not_interested_score: Option<i64>,
    pub mute_author_score: Option<i64>,
    pub block_author_score: Option<i64>,
    pub report_score: Option<i64>,
}

impl PhoenixScores {
    /// Every present field is a probability in the unit interval, as the
    /// upstream prediction model guarantees.
    pub open spec fn wf(&self) -> bool {
        &&& in_unit(self.favorite_score)
        &&& in_unit(self.reply_score)
        &&& in_unit(self.retweet_score)
        &&& in_unit(self.share_score)
        &&& in_unit(self.dwell_score)
        &&& in_unit(self.quote_score)
        &&& in_unit(self.follow_author_score)
        &&& in_unit(self.not_interested_score)
        &&& in_unit(self.mute_author_score)
        &&& in_unit(self.block_author_score)
        &&& in_unit(self.report_score)
    }

    /// Runtime check of [`PhoenixScores::wf`], for callers outside the
    /// verified library.
    pub fn is_well_formed(&self) -> (r: bool)
        ensures
            r == self.wf(),
    {
        let mut ok: bool = check_unit(&self.favorite_score);
        ok = ok && check_unit(&self.reply_score);
        ok = ok && check_unit(&self.retweet_score);
        ok = ok && check_unit(&self.share_score);
        ok = ok && check_unit(&self.dwell_score);
        ok = ok && check_unit(&self.quote_score);
        ok = ok && check_unit(&self.follow_author_score);
        ok = ok && check_unit(&self.not_interested_score);
        ok = ok && check_unit(&self.mute_author_score);
        ok = ok && check_unit(&self.block_author_score);
        ok = ok && check_unit(&self.report_score);
        ok
    }

    /// A value with every field absent.
    pub fn absent() -> (r: PhoenixScores)
        ensures
            r == PhoenixScores::all_absent(),
            r.wf(),
    {
        PhoenixScores {
            favorite_score: None,
            reply_score: None,
            retweet_score: None,
            share_score: None,
            dwell_score: None,
            quote_score: None,
            follow_author_score: None,
            not_interested_score: None,
            mute_author_score: None,
            block_author_score: None,
            report_score: None,
        }
    }

    /// The value with every field absent.
    pub open spec fn all_absent() -> PhoenixScores {
        PhoenixScores {
            favorite_score: None,
            reply_score: None,
            retweet_score: None,
            share_score: None,
            dwell_score: None,
            quote_score: None,
            follow_author_score: None,
            not_interested_score: None,
            mute_author_score: None,
            block_author_score: None,
            report_score: None,
        }
    }
}

fn check_unit(v: &Option<i64>) -> (r: bool)
    ensures
        r == in_unit(*v),
{
    match v {
        Some(x) => 0 <= *x && *x <= SCALE,
        None => true,
    }
}

/// One rankable item, as this stage sees it: the base relevance score a
/// prior stage set (absent counts as 0.0), and the Phoenix predictions.
#[derive(Clone, Copy)]
pub struct PostCandidate {
    pub weighted_score: Option<i64>,
    pub phoenix_scores: PhoenixScores,
}

impl PostCandidate {
    /// The Phoenix fields are unit-interval probabilities, and the base
    /// score is small enough that the bounded multiplier keeps the adjusted
    /// score inside `i64`.
    pub open spec fn wf(&self) -> bool {
        &&& self.phoenix_scores.wf()
        &&& match self.weighted_score {
            Some(b) => -MAX_BASE <= b <= MAX_BASE,
            None => true,
        }
    }

    /// Runtime check of [`PostCandidate::wf`], for callers outside the
    /// verified library.
    pub fn is_well_formed(&self) -> (r: bool)
        ensures
            r == self.wf(),
    {
        let base_ok: bool = match &self.weighted_score {
            Some(b) => -MAX_BASE <= *b && *b <= MAX_BASE,
            None => true,
        };
        base_ok && self.phoenix_scores.is_well_formed()
    }
}

/// The narrow result this stage hands back for each candidate: only the
/// recomputed weighted score. The merge step copies this one field into the
/// live candidate and touches nothing else.
#[derive(Clone, Copy)]
pub struct ScoreDelta {
    pub weighted_score: Option<i64>,
}

/// The host's query context. This stage never reads it; it stands in the
/// scoring signature because the host hands one to every stage.
pub struct ScoredPostsQuery;

} // verus!
