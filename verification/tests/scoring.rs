use gv_scorer::scorer::apply_multiplier;
use gv_scorer::scorer::compute_gv;
use gv_scorer::scorer::get;
use gv_scorer::scorer::gv_multiplier;
use gv_scorer::GvScorer;
use gv_scorer::PhoenixScores;
use gv_scorer::PostCandidate;
use gv_scorer::ScoredPostsQuery;

#[test]
fn all_absent_gives_exactly_half() {
    // With every field absent and a zero bias, compute_gv is sigmoid(0) = 0.5.
    let s = PhoenixScores::absent();
    assert_eq!(compute_gv(&s), 500_000);
}

#[test]
fn output_strictly_inside_unit_interval() {
    let mut strong_positive = PhoenixScores::absent();
    strong_positive.favorite_score = Some(1_000_000);
    strong_positive.reply_score = Some(1_000_000);
    strong_positive.retweet_score = Some(1_000_000);
    strong_positive.share_score = Some(1_000_000);
    strong_positive.dwell_score = Some(1_000_000);
    strong_positive.quote_score = Some(1_000_000);
    strong_positive.follow_author_score = Some(1_000_000);
    let hi = compute_gv(&strong_positive);
    assert!(0 < hi && hi < 1_000_000);
    assert_eq!(hi, 999_999);

    let mut strong_negative = PhoenixScores::absent();
    strong_negative.not_interested_score = Some(1_000_000);
    strong_negative.mute_author_score = Some(1_000_000);
    strong_negative.block_author_score = Some(1_000_000);
    strong_negative.report_score = Some(1_000_000);
    let lo = compute_gv(&strong_negative);
    assert!(0 < lo && lo < 1_000_000);
    assert_eq!(lo, 1);
}

#[test]
fn tracks_the_real_logistic() {
    // favorite 0.5 against report 0.5: raw = 0.5 - 1.1 = -0.6, and
    // compute_gv is within a few micro-units of 1 / (1 + e^(3 * 0.6)).
    let mut s = PhoenixScores::absent();
    s.favorite_score = Some(500_000);
    s.report_score = Some(500_000);
    let gv = compute_gv(&s);
    assert_eq!(gv, 141_851);
    let expected = 1.0f64 / (1.0 + (3.0f64 * 0.6).exp());
    assert!((gv as f64 / 1e6 - expected).abs() < 5e-6);
}

#[test]
fn defaulted_accessor() {
    assert_eq!(get(None), 0);
    assert_eq!(get(Some(42)), 42);
}

#[test]
fn end_to_end_single_favorite() {
    // weighted_score 2.0, favorite 1.0 (weight 1.00), everything else
    // absent: raw = 1.0, gv = 1 / (1 + e^-3) ~ 0.9526, shaped ~ 0.962,
    // multiplier ~ 1.231, adjusted score ~ 2.462.
    let mut s = PhoenixScores::absent();
    s.favorite_score = Some(1_000_000);
    let gv = compute_gv(&s);
    assert_eq!(gv, 952_574);
    assert!((gv as f64 / 1e6 - 1.0f64 / (1.0 + (-3.0f64).exp())).abs() < 2e-6);

    let m = gv_multiplier(gv);
    assert_eq!(m, 1_231_029);

    let c = PostCandidate { weighted_score: Some(2_000_000), phoenix_scores: s };
    let scorer = GvScorer;
    let out = scorer.score(&ScoredPostsQuery, &vec![c]).unwrap();
    assert_eq!(out.len(), 1);
    assert_eq!(out[0].weighted_score, Some(2_462_058));
    assert!((2_462_058f64 / 1e6 - 2.4620593).abs() < 2e-6);
}

#[test]
fn all_absent_with_base_five() {
    // All fields absent gives gv = 0.5, multiplier 1.05, score 5.25; the
    // multiplier's floor 1 + 0.25 * (0.2 - 0.5) * 2 = 0.85 is reached only
    // at a Gv of zero, where a base of 5.0 would scale to 4.25.
    let c = PostCandidate {
        weighted_score: Some(5_000_000),
        phoenix_scores: PhoenixScores::absent(),
    };
    let scorer = GvScorer;
    let out = scorer.score(&ScoredPostsQuery, &vec![c]).unwrap();
    assert_eq!(out[0].weighted_score, Some(5_250_000));

    assert_eq!(gv_multiplier(0), 850_000);
    assert_eq!(apply_multiplier(5_000_000, gv_multiplier(0)), 4_250_000);
}

#[test]
fn missing_base_scores_zero() {
    // A missing base score reads as 0.0: the adjusted score is 0 whatever
    // the predictions say.
    let mut s = PhoenixScores::absent();
    s.favorite_score = Some(1_000_000);
    s.follow_author_score = Some(1_000_000);
    let c = PostCandidate { weighted_score: None, phoenix_scores: s };
    let scorer = GvScorer;
    let out = scorer.score(&ScoredPostsQuery, &vec![c]).unwrap();
    assert_eq!(out[0].weighted_score, Some(0));
}

#[test]
fn negative_base_scales_symmetrically() {
    let m = gv_multiplier(952_574);
    assert_eq!(apply_multiplier(-2_000_000, m), -2_462_058);
}

#[test]
fn batch_is_order_independent() {
    let mut fav = PhoenixScores::absent();
    fav.favorite_score = Some(1_000_000);
    let mut rep = PhoenixScores::absent();
    rep.report_score = Some(1_000_000);

    let a = PostCandidate { weighted_score: Some(2_000_000), phoenix_scores: fav };
    let b = PostCandidate { weighted_score: Some(5_000_000), phoenix_scores: PhoenixScores::absent() };
    let c = PostCandidate { weighted_score: Some(1_000_000), phoenix_scores: rep };

    let scorer = GvScorer;
    let query = ScoredPostsQuery;
    let forward = scorer.score(&query, &vec![a, b, c]).unwrap();
    let reversed = scorer.score(&query, &vec![c, b, a]).unwrap();

    assert_eq!(forward.len(), 3);
    assert_eq!(reversed.len(), 3);
    assert_eq!(forward[0].weighted_score, reversed[2].weighted_score);
    assert_eq!(forward[1].weighted_score, reversed[1].weighted_score);
    assert_eq!(forward[2].weighted_score, reversed[0].weighted_score);
    assert_eq!(forward[0].weighted_score, Some(2_462_058));
    assert_eq!(forward[1].weighted_score, Some(5_250_000));
    assert_eq!(forward[2].weighted_score, Some(850_543));
}

#[test]
fn scoring_never_fails() {
    let scorer = GvScorer;
    let query = ScoredPostsQuery;
    assert!(scorer.score(&query, &vec![]).is_ok());
    let c = PostCandidate {
        weighted_score: None,
        phoenix_scores: PhoenixScores::absent(),
    };
    assert!(scorer.score(&query, &vec![c]).is_ok());
}

#[test]
fn update_copies_only_the_score() {
    let mut s = PhoenixScores::absent();
    s.favorite_score = Some(750_000);
    s.report_score = Some(10_000);
    let mut live = PostCandidate { weighted_score: Some(3_000_000), phoenix_scores: s };

    let scorer = GvScorer;
    let out = scorer.score(&ScoredPostsQuery, &vec![live]).unwrap();
    scorer.update(&mut live, out[0]);

    assert_eq!(live.weighted_score, out[0].weighted_score);
    assert_eq!(live.phoenix_scores.favorite_score, Some(750_000));
    assert_eq!(live.phoenix_scores.report_score, Some(10_000));
    assert_eq!(live.phoenix_scores.reply_score, None);
}

#[test]
fn well_formedness_checks() {
    let mut s = PhoenixScores::absent();
    assert!(s.is_well_formed());
    s.favorite_score = Some(1_000_000);
    assert!(s.is_well_formed());
    s.favorite_score = Some(1_000_001);
    assert!(!s.is_well_formed());
    s.favorite_score = Some(-1);
    assert!(!s.is_well_formed());

    let good = PostCandidate {
        weighted_score: Some(7_000_000_000_000_000_000),
        phoenix_scores: PhoenixScores::absent(),
    };
    assert!(good.is_well_formed());
    let bad = PostCandidate {
        weighted_score: Some(7_000_000_000_000_000_001),
        phoenix_scores: PhoenixScores::absent(),
    };
    assert!(!bad.is_well_formed());
}
