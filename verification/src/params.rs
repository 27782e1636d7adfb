//! Compiled-in tunables for the Gv scoring stage.
//!
//! Every constant is a fixed-point micro-unit value: the real number 1.0 is
//! held as `1_000_000`. The weights say how strongly each predicted
//! engagement outcome counts toward (or against) a candidate's net value.

use vstd::prelude::*;

verus! {

/// One whole unit (the real value 1.0) in micro-units.
pub const SCALE: i64 = 1_000_000;

/// One whole unit squared: the scale of a product of two micro-unit values.
pub const SCALE_SQ: i64 = 1_000_000_000_000;

// Positive value signals.
pub const GV_FAVORITE_W: i64 = 1_000_000;

pub const GV_REPLY_W: i64 = 700_000;

pub const GV_RETWEET_W: i64 = 800_000;

pub const GV_SHARE_W: i64 = 900_000;

pub const GV_DWELL_W: i64 = 400_000;

pub const GV_QUOTE_W: i64 = 500_000;

pub const GV_FOLLOW_AUTHOR_W: i64 = 1_000_000;

// Negative / regret signals.
pub const GV_NOT_INTERESTED_W: i64 = 1_000_000;

pub const GV_MUTE_AUTHOR_W: i64 = 1_300_000;

pub const GV_BLOCK_AUTHOR_W: i64 = 1_600_000;

pub const GV_REPORT_W: i64 = 2_200_000;

/// Steepness of the logistic squashing step (the real value 3.0).
pub const GV_SIGMOID_K: i64 = 3_000_000;

/// Additive bias applied to the weighted sum before squashing.
pub const GV_BIAS: i64 = 0;

/// Lower bound of the shaped Gv value: keeps a minimal exploration weight,
/// so no candidate's adjustment ever collapses to zero (the real value 0.2).
pub const GV_FLOOR: i64 = 200_000;

/// Half-width of the adjustment band around a multiplier of 1.0 (the real
/// value 0.25).
pub const GV_STRENGTH: i64 = 250_000;

/// Smallest multiplier the shaping can produce with the constants above:
/// 1 + strength * (floor - 0.5) * 2, the real value 0.85.
pub const MULT_MIN: i64 = 850_000;

/// Largest multiplier the shaping can produce with the constants above:
/// 1 + strength * (1 - 0.5) * 2, the real value 1.25.
pub const MULT_MAX: i64 = 1_250_000;

/// Largest magnitude of a base score the scorer accepts. Beyond it the
/// product with [`MULT_MAX`] could leave the range of `i64`.
pub const MAX_BASE: i64 = 7_000_000_000_000_000_000;

} // verus!
