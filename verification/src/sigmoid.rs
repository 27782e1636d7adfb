//! The logistic squashing step, in fixed-point micro-units.
//!
//! `sigmoid_micros` maps a signed exponent `y` (micro-units) to
//! `1 / (1 + e^-y)` in micro-units, strictly between 0 and [`SCALE`].
//! The exponential is evaluated exactly over the integers: a table gives
//! `e^n` for the whole part of the exponent, and a truncated Taylor series
//! gives `e^f` for the fractional part. Every division floors on
//! nonnegative operands, so the executable arithmetic and the spec-level
//! definitions agree step for step.

use vstd::arithmetic::div_mod::lemma_div_is_ordered;
use vstd::arithmetic::div_mod::lemma_div_is_ordered_by_denominator;
use vstd::arithmetic::div_mod::lemma_div_multiples_vanish;
use vstd::arithmetic::div_mod::lemma_div_nonincreasing;
use vstd::arithmetic::div_mod::lemma_div_pos_is_pos;
use vstd::arithmetic::div_mod::lemma_multiply_divide_lt;
use vstd::arithmetic::mul::lemma_mul_inequality;
use vstd::arithmetic::mul::lemma_mul_is_commutative;
use vstd::arithmetic::mul::lemma_mul_nonnegative;
use vstd::arithmetic::mul::lemma_mul_upper_bound;
use vstd::prelude::*;

use crate::params::SCALE;
use crate::params::SCALE_SQ;

verus! {

/// Taylor terms past the constant one used for e^f on the unit interval.
/// Eleven terms put the series truncation error below one micro-unit.
pub const EXP_TERMS: u64 = 10;

/// Cap on the exponential before it enters the logistic quotient. Beyond
/// `SCALE_SQ - SCALE` the quotient would floor to zero, and the Gv value
/// must stay strictly positive; the cap saturates the sigmoid one
/// micro-unit short of its asymptote instead.
pub const EXP_CAP: u64 = 999_999_000_000;

/// `e^n` in micro-units for a whole exponent `n`, saturating at 19 (the
/// largest whole exponent the scoring stage can produce).
pub open spec fn exp_whole_micros(n: int) -> int {
    if n <= 0 {
        1_000_000
    } else if n == 1 {
        2_718_282
    } else if n == 2 {
        7_389_056
    } else if n == 3 {
        20_085_537
    } else if n == 4 {
        54_598_150
    } else if n == 5 {
        148_413_159
    } else if n == 6 {
        403_428_793
    } else if n == 7 {
        1_096_633_158
    } else if n == 8 {
        2_980_957_987
    } else if n == 9 {
        8_103_083_928
    } else if n == 10 {
        22_026_465_795
    } else if n == 11 {
        59_874_141_715
    } else if n == 12 {
        162_754_791_419
    } else if n == 13 {
        442_413_392_009
    } else if n == 14 {
        1_202_604_284_165
    } else if n == 15 {
        3_269_017_372_472
    } else if n == 16 {
        8_886_110_520_508
    } else if n == 17 {
        24_154_952_753_575
    } else if n == 18 {
        65_659_969_137_331
    } else {
        178_482_300_963_187
    }
}

/// The `i`-th Taylor term of `e^f` in micro-units, `f^i / i!`, evaluated
/// with a floor division at each step.
pub open spec fn taylor_term(f: int, i: nat) -> int
    decreases i,
{
    if i == 0 {
        SCALE as int
    } else {
        taylor_term(f, (i - 1) as nat) * f / (SCALE * i)
    }
}

/// The Taylor series of `e^f` in micro-units, truncated after term `i`.
pub open spec fn taylor_sum(f: int, i: nat) -> int
    decreases i,
{
    if i == 0 {
        SCALE as int
    } else {
        taylor_sum(f, (i - 1) as nat) + taylor_term(f, i)
    }
}

/// `e^f` in micro-units for a fractional exponent `f` in `[0, SCALE)`.
pub open spec fn exp_frac_micros(f: int) -> int {
    taylor_sum(f, EXP_TERMS as nat)
}

/// `e^x` in micro-units for a nonnegative exponent `x` in micro-units:
/// the whole-exponent table entry times the fractional series.
pub open spec fn exp_micros_spec(x: int) -> int {
    exp_whole_micros(x / (SCALE as int)) * exp_frac_micros(x % (SCALE as int)) / (SCALE as int)
}

/// The logistic function `1 / (1 + e^-y)` in micro-units, written without
/// a reciprocal: `e^y / (1 + e^y)` for nonnegative `y`, and
/// `1 / (1 + e^-y)` with the exponential capped at [`EXP_CAP`] for
/// negative `y`.
pub open spec fn sigmoid_micros_spec(y: int) -> int {
    if y >= 0 {
        let e = exp_micros_spec(y);
        SCALE * e / (SCALE + e)
    } else {
        let e0 = exp_micros_spec(-y);
        let e: int = if e0 > EXP_CAP { EXP_CAP as int } else { e0 };
        (SCALE_SQ as int) / (SCALE + e)
    }
}

/// Every Taylor term stays within one unit, and the truncated series stays
/// between one unit and one unit per term.
proof fn lemma_taylor_bounds(f: int, i: nat)
    requires
        0 <= f < SCALE,
    ensures
        0 <= taylor_term(f, i) <= SCALE,
        SCALE <= taylor_sum(f, i) <= SCALE + i * SCALE,
    decreases i,
{
    if i > 0 {
        lemma_taylor_bounds(f, (i - 1) as nat);
        let t = taylor_term(f, (i - 1) as nat);
        let d = SCALE * i;
        assert(d >= SCALE);
        lemma_mul_nonnegative(t, f);
        lemma_div_pos_is_pos(t * f, d);
        lemma_mul_upper_bound(t, SCALE as int, f, (SCALE - 1) as int);
        lemma_div_is_ordered_by_denominator(t * f, SCALE as int, d);
        lemma_div_is_ordered(t * f, SCALE * (SCALE - 1), SCALE as int);
        lemma_div_multiples_vanish(SCALE - 1, SCALE as int);
        assert(taylor_term(f, i) <= SCALE);
    }
}

/// With a zero fractional exponent every Taylor term past the constant one
/// vanishes, so the truncated series is exactly one unit.
proof fn lemma_taylor_zero(i: nat)
    ensures
        taylor_term(0, i) == if i == 0 {
            SCALE as int
        } else {
            0
        },
        taylor_sum(0, i) == SCALE,
    decreases i,
{
    if i > 0 {
        lemma_taylor_zero((i - 1) as nat);
        let t = taylor_term(0, (i - 1) as nat);
        let d = SCALE * i;
        assert(t * 0 == 0);
        lemma_div_pos_is_pos(0, d);
        lemma_div_nonincreasing(0, d);
    }
}

/// A zero exponent gives exactly one unit: `e^0 == 1`.
pub proof fn lemma_exp_zero()
    ensures
        exp_micros_spec(0) == SCALE,
{
    lemma_taylor_zero(EXP_TERMS as nat);
    assert(0int / (SCALE as int) == 0);
    assert(0int % (SCALE as int) == 0);
    assert((SCALE as int) * (SCALE as int) / (SCALE as int) == SCALE as int);
}

/// The sigmoid of zero is exactly half a unit.
pub proof fn lemma_sigmoid_zero()
    ensures
        sigmoid_micros_spec(0) == SCALE / 2,
{
    lemma_exp_zero();
}

/// `e^n` in micro-units for a whole exponent `n <= 19`, by table.
pub fn exp_whole(n: u64) -> (r: u64)
    requires
        n <= 19,
    ensures
        r == exp_whole_micros(n as int),
{
    if n == 0 {
        1_000_000
    } else if n == 1 {
        2_718_282
    } else if n == 2 {
        7_389_056
    } else if n == 3 {
        20_085_537
    } else if n == 4 {
        54_598_150
    } else if n == 5 {
        148_413_159
    } else if n == 6 {
        403_428_793
    } else if n == 7 {
        1_096_633_158
    } else if n == 8 {
        2_980_957_987
    } else if n == 9 {
        8_103_083_928
    } else if n == 10 {
        22_026_465_795
    } else if n == 11 {
        59_874_141_715
    } else if n == 12 {
        162_754_791_419
    } else if n == 13 {
        442_413_392_009
    } else if n == 14 {
        1_202_604_284_165
    } else if n == 15 {
        3_269_017_372_472
    } else if n == 16 {
        8_886_110_520_508
    } else if n == 17 {
        24_154_952_753_575
    } else if n == 18 {
        65_659_969_137_331
    } else {
        178_482_300_963_187
    }
}

/// `e^f` in micro-units for a fractional exponent, by the truncated
/// Taylor series.
pub fn exp_frac(f: u64) -> (r: u64)
    requires
        f < SCALE,
    ensures
        r == exp_frac_micros(f as int),
        SCALE <= r <= 11_000_000,
{
    let mut acc: u64 = 1_000_000;
    let mut term: u64 = 1_000_000;
    let mut i: u64 = 1;
    while i <= EXP_TERMS
        invariant
            1 <= i <= EXP_TERMS + 1,
            f < SCALE,
            term == taylor_term(f as int, (i - 1) as nat),
            acc == taylor_sum(f as int, (i - 1) as nat),
            0 <= term <= SCALE,
            SCALE <= acc <= SCALE + (i - 1) * SCALE,
        decreases EXP_TERMS + 1 - i,
    {
        proof {
            lemma_mul_upper_bound(term as int, SCALE as int, f as int, (SCALE - 1) as int);
        }
        let denom: u64 = 1_000_000 * i;
        let new_term: u64 = (term * f) / denom;
        proof {
            assert(denom == SCALE * (i as int));
            assert(new_term == taylor_term(f as int, i as nat));
            lemma_taylor_bounds(f as int, i as nat);
        }
        acc = acc + new_term;
        term = new_term;
        i = i + 1;
    }
    acc
}

/// `e^x` in micro-units for a nonnegative exponent below 20 units.
pub fn exp_micros(x: u64) -> (r: u64)
    requires
        x < 20_000_000,
    ensures
        r == exp_micros_spec(x as int),
        SCALE <= r <= 2_000_000_000_000_000,
{
    let n: u64 = x / 1_000_000;
    let f: u64 = x % 1_000_000;
    let w: u64 = exp_whole(n);
    let t: u64 = exp_frac(f);
    proof {
        assert(n == x as int / (SCALE as int));
        assert(f == x as int % (SCALE as int));
        assert(1_000_000 <= w as int <= 178_482_300_963_187);
        lemma_mul_upper_bound(w as int, 178_482_300_963_187int, t as int, 11_000_000int);
        lemma_mul_inequality(SCALE as int, w as int, t as int);
        lemma_div_is_ordered(SCALE_SQ as int, (w as int) * (t as int), SCALE as int);
        lemma_div_is_ordered(
            (w as int) * (t as int),
            178_482_300_963_187int * 11_000_000int,
            SCALE as int,
        );
    }
    let p: u128 = (w as u128) * (t as u128);
    let r64: u64 = (p / 1_000_000) as u64;
    r64
}

/// The logistic squashing in micro-units: strictly between 0 and one unit
/// for every exponent magnitude below 20 units.
pub fn sigmoid_micros(y: i64) -> (r: i64)
    requires
        -20_000_000 < y < 20_000_000,
    ensures
        r == sigmoid_micros_spec(y as int),
        0 < r < SCALE,
{
    if y >= 0 {
        let e: u64 = exp_micros(y as u64);
        let num: u128 = 1_000_000u128 * (e as u128);
        let den: u128 = 1_000_000u128 + (e as u128);
        proof {
            let ei = e as int;
            lemma_multiply_divide_lt(SCALE * ei, SCALE + ei, SCALE as int);
            lemma_div_is_ordered(500_000 * (SCALE + ei), SCALE * ei, SCALE + ei);
            lemma_mul_is_commutative(500_000int, SCALE + ei);
            lemma_div_multiples_vanish(500_000int, SCALE + ei);
        }
        let q: u64 = (num / den) as u64;
        q as i64
    } else {
        let e0: u64 = exp_micros((-y) as u64);
        let e: u64 = if e0 > EXP_CAP {
            EXP_CAP
        } else {
            e0
        };
        let den: u128 = 1_000_000u128 + (e as u128);
        proof {
            let ei = e as int;
            lemma_div_is_ordered_by_denominator(SCALE_SQ as int, 2_000_000int, SCALE + ei);
            lemma_div_is_ordered_by_denominator(SCALE_SQ as int, SCALE + ei, SCALE_SQ as int);
        }
        let q: u64 = (1_000_000_000_000u128 / den) as u64;
        q as i64
    }
}

} // verus!
