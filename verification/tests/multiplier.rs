use gv_scorer::params::MULT_MAX;
use gv_scorer::params::MULT_MIN;
use gv_scorer::params::SCALE;
use gv_scorer::scorer::gv_multiplier;

#[test]
fn floor_bound_at_zero() {
    // 1 + strength * (floor - 0.5) * 2 = 1 + 0.25 * (0.2 - 0.5) * 2 = 0.85
    assert_eq!(gv_multiplier(0), 850_000);
    assert_eq!(gv_multiplier(0), MULT_MIN);
}

#[test]
fn ceiling_bound_at_one() {
    // 1 + strength * 0.5 * 2 = 1.25
    assert_eq!(gv_multiplier(1_000_000), 1_250_000);
    assert_eq!(gv_multiplier(1_000_000), MULT_MAX);
}

#[test]
fn midpoint_value() {
    // shaped = 0.2 + 0.8 * 0.5 = 0.6; multiplier = 1 + 0.25 * 0.1 * 2 = 1.05
    assert_eq!(gv_multiplier(500_000), 1_050_000);
}

#[test]
fn clamps_below_zero() {
    assert_eq!(gv_multiplier(-5_000_000), gv_multiplier(0));
}

#[test]
fn clamps_above_one() {
    assert_eq!(gv_multiplier(5_000_000), gv_multiplier(1_000_000));
}

#[test]
fn monotone_over_unit_interval() {
    let mut prev: i64 = gv_multiplier(-100_000);
    let mut g: i64 = -100_000;
    while g <= 1_100_000 {
        let m = gv_multiplier(g);
        assert!(m >= prev);
        prev = m;
        g += 1_000;
    }
}

#[test]
fn stays_inside_band() {
    let mut g: i64 = -2_000_000;
    while g <= 3_000_000 {
        let m = gv_multiplier(g);
        assert!(MULT_MIN <= m && m <= MULT_MAX);
        g += 7_919;
    }
}

#[test]
fn matches_real_valued_shaping() {
    // Against the real-valued formula 1 + 0.25 * ((0.2 + 0.8 * gv) - 0.5) * 2,
    // the fixed-point result is within one micro-unit.
    let mut g: i64 = 0;
    while g <= 1_000_000 {
        let m = gv_multiplier(g);
        let gv = g as f64 / SCALE as f64;
        let expected = 1.0 + 0.25 * ((0.2 + 0.8 * gv) - 0.5) * 2.0;
        let got = m as f64 / SCALE as f64;
        assert!((got - expected).abs() < 2e-6);
        g += 1_009;
    }
}
