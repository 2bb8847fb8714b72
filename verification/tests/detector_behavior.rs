use bazaar_metrics::diff::{consumed_between, new_offers_between};
use bazaar_metrics::frac::Frac;
use bazaar_metrics::fuse::{detect_fuzzy_modal_pattern, fuse_fuzzy_patterns};
use bazaar_metrics::legacy::{detect_modal_pattern_legacy, find_patterns_from_deltas};
use bazaar_metrics::patterns::{FuzzyPattern, PatternKind, PatternPeriod};
use bazaar_metrics::rhythm::detect_rhythm_patterns;
use bazaar_metrics::seqsim::{detect_sequence_similarity_patterns, sequence_similarity};
use bazaar_metrics::snapshot::OrderLevel;
use bazaar_metrics::util::isqrt_u128;
use bazaar_metrics::velocity::detect_velocity_patterns;

fn level(amount: i64, price_key: u64, order_count: i64) -> OrderLevel {
    OrderLevel { amount, price_key, order_count }
}

fn period(position: usize, delta: i64, inferred: i64, timestamp: u64) -> PatternPeriod {
    PatternPeriod { position, moving_week_delta: delta, inferred_volume: inferred, timestamp }
}

/// A price-level amount dropping from 640 to 128 at an unchanged key
/// reads as 512 consumed units in one event.
#[test]
fn scenario_amount_drop_is_consumption() {
    let prev = vec![level(640, 5000, 2)];
    let cur = vec![level(128, 5000, 2)];
    let (volume, events) = consumed_between(&prev, &cur);
    assert_eq!(volume, 512);
    assert_eq!(events, 1);
}

/// A vanished price level contributes its whole previous amount.
#[test]
fn vanished_level_is_fully_consumed() {
    let prev = vec![level(300, 5000, 1), level(70, 6000, 1)];
    let cur = vec![level(300, 5000, 1)];
    let (volume, events) = consumed_between(&prev, &cur);
    assert_eq!(volume, 70);
    assert_eq!(events, 1);
}

/// When a list prices one level twice, the last occurrence supplies
/// the amount, exactly as a price-keyed map built by insertion reads.
#[test]
fn duplicate_keys_read_last_occurrence() {
    let prev = vec![level(10, 5000, 1), level(5, 5000, 1)];
    let cur: Vec<OrderLevel> = vec![];
    let (volume, events) = consumed_between(&prev, &cur);
    assert_eq!(volume, 5);
    assert_eq!(events, 1);
}

/// A brand-new price level yields its whole order count and amount; a
/// grown level yields the growth.
#[test]
fn new_offer_detection() {
    let prev = vec![level(100, 10, 2)];
    let cur = vec![level(150, 10, 5), level(200, 11, 4)];
    let (offers, amount) = new_offers_between(&prev, &cur);
    assert_eq!(offers, (5 - 2) + 4);
    assert_eq!(amount, (150 - 100) + 200);
}

/// Six periods with a delta of exactly fifty at ten-minute intervals
/// form one exact cluster: six of six used, confidence one, frequency
/// ten minutes.
#[test]
fn scenario_six_exact_periods() {
    let mut periods = Vec::new();
    for i in 0..6usize {
        periods.push(period(i, 50, 25, 1_000 + 600 * i as u64));
    }
    let p = detect_modal_pattern_legacy(&periods).expect("six equal periods must cluster");
    assert_eq!(p.occurrence_count, 6);
    assert_eq!(p.confidence, 1_000_000);
    // Five intervals of six hundred seconds over five times sixty.
    assert_eq!(p.frequency_minutes.num, 5 * 600);
    assert_eq!(p.frequency_minutes.den, 60 * 5);
    assert_eq!(p.size.num, 50);
    assert_eq!(p.size.den, 1);
    // Ratio: fifty per twenty-five inferred, scaled by ten thousand.
    assert_eq!(p.ratio.num, 20_000);
    assert_eq!(p.ratio.den, 10_000);
    assert_eq!(p.detection_method, PatternKind::LegacyExactClustering);
}

/// No detector reports a pattern from fewer than three qualifying
/// occurrences.
#[test]
fn fewer_than_three_occurrences_is_silence() {
    // Two qualifying periods only.
    let periods = vec![period(0, 50, 25, 1_000), period(1, 50, 25, 1_600)];
    assert!(detect_modal_pattern_legacy(&periods).is_none());
    // Two activity ticks only.
    let d = vec![0i64, 40, 0, 40];
    let ts: Vec<u64> = (0..5).map(|i| 1_000 + 600 * i as u64).collect();
    assert!(detect_rhythm_patterns(&d, &ts).is_empty());
    assert!(detect_velocity_patterns(&d, &ts).is_empty());
    // A sequence too short for any window to recur three times.
    let d2 = vec![7i64, 7, 7, 7];
    let ts2: Vec<u64> = (0..5).map(|i| 1_000 + 60 * i as u64).collect();
    assert!(detect_sequence_similarity_patterns(&d2, &ts2).is_empty());
}

/// The legacy ratio fallback accepts a group only when every delta is
/// within a tenth of the mean.
#[test]
fn ratio_fallback_tolerance() {
    // Same rounded ratio 2.0, deltas 100/102/98: within ten percent.
    let periods = vec![
        period(0, 100, 50, 1_000),
        period(1, 102, 51, 1_600),
        period(2, 98, 49, 2_200),
    ];
    let p = detect_modal_pattern_legacy(&periods).expect("close deltas must cluster by ratio");
    assert_eq!(p.occurrence_count, 3);
    // The mean delta is truncated: (100 + 102 + 98) / 3 = 100.
    assert_eq!(p.size.num, 100);
    // Deltas 100 and 300 share no exact key and fail the tolerance.
    let spread = vec![
        period(0, 100, 50, 1_000),
        period(1, 300, 150, 1_600),
        period(2, 100, 50, 2_200),
    ];
    assert!(detect_modal_pattern_legacy(&spread).is_none());
}

/// Six equal deltas at regular intervals make a velocity cluster with
/// full confidence and a clean frequency.
#[test]
fn velocity_regular_cluster() {
    let d = vec![0i64, 50, 50, 50, 50, 50, 50];
    let ts: Vec<u64> = (0..8).map(|i| 10_000 + 600 * i as u64).collect();
    let ps = detect_velocity_patterns(&d, &ts);
    assert!(!ps.is_empty());
    let p = &ps[0];
    assert_eq!(p.pattern_type, PatternKind::VelocityRegular);
    assert_eq!(p.occurrences, 6);
    assert_eq!(p.confidence, 1_000_000);
    // Perfectly regular intervals: the method weight is nine tenths.
    assert_eq!(p.method_confidence, 900_000);
    assert_eq!(p.frequency_minutes.num, 5 * 600);
    assert_eq!(p.frequency_minutes.den, 60 * 5);
    assert_eq!(p.size.num, 6 * 50);
    assert_eq!(p.size.den, 6);
}

/// Regular activity yields a rhythm mode at the tightest tolerance.
#[test]
fn rhythm_detects_regular_intervals() {
    let d = vec![0i64, 30, 30, 30, 30, 30];
    let ts: Vec<u64> = (0..7).map(|i| 10_000 + 600 * i as u64).collect();
    let ps = detect_rhythm_patterns(&d, &ts);
    assert!(!ps.is_empty());
    let p = &ps[0];
    assert_eq!(p.pattern_type, PatternKind::RhythmTwentyPct);
    assert!(p.occurrences >= 3);
    assert_eq!(p.size.num, 5 * 30);
    assert_eq!(p.size.den, 5);
}

/// Window similarity scores: identical windows pass, opposed zero
/// patterns fail.
#[test]
fn window_similarity_threshold() {
    let d = vec![10i64, 0, 10, 0, 10, 0];
    assert!(sequence_similarity(&d, 0, 2, 2));
    assert!(!sequence_similarity(&d, 0, 1, 2));
}

/// A window recurring three times is reported with its occurrence
/// count, and fusion hands the best candidate through.
#[test]
fn sequence_pattern_and_fusion() {
    let mut d = Vec::new();
    for _ in 0..4 {
        d.extend_from_slice(&[20i64, 0, 0]);
    }
    let ts: Vec<u64> = (0..d.len() as u64 + 1).map(|i| 1_000 + 60 * i).collect();
    let ps = detect_sequence_similarity_patterns(&d, &ts);
    assert!(!ps.is_empty());
    assert!(ps[0].occurrences >= 3);
    let inf = vec![10i64; d.len()];
    let (fused, details) = detect_fuzzy_modal_pattern(&d, &inf, &ts);
    let fp = fused.expect("a recurring window must fuse into a pattern");
    assert!(fp.occurrence_count >= 3);
    assert!(fp.confidence <= 1_000_000);
    // The ratio settles to counter delta over inferred volume, summed
    // over the four candidate periods.
    assert_eq!(fp.ratio.num, 4 * 20);
    assert_eq!(fp.ratio.den, 4 * 10);
    assert!(details.sequence_patterns_found >= 1);
}

/// Fusion picks the highest method confidence and weights the overall
/// confidence by it.
#[test]
fn fusion_prefers_method_confidence() {
    let a = FuzzyPattern {
        pattern_type: PatternKind::SequenceSimilarity,
        size: Frac { num: 5, den: 1 },
        frequency_minutes: Frac { num: 10, den: 1 },
        confidence: 400_000,
        occurrences: 3,
        method_confidence: 320_000,
    };
    let b = FuzzyPattern {
        pattern_type: PatternKind::VelocityRegular,
        size: Frac { num: 9, den: 1 },
        frequency_minutes: Frac { num: 20, den: 1 },
        confidence: 500_000,
        occurrences: 4,
        method_confidence: 450_000,
    };
    let fused = fuse_fuzzy_patterns(vec![a], vec![b], vec![]).expect("two candidates fuse");
    assert_eq!(fused.detection_method, PatternKind::VelocityRegular);
    assert_eq!(fused.occurrence_count, 4);
    // Weighted: (400000*320000 + 500000*450000) / (320000 + 450000).
    let expected = (400_000u128 * 320_000 + 500_000 * 450_000) / (320_000 + 450_000);
    assert_eq!(fused.confidence as u128, expected);
}

/// The integer square root is exact on both sides of a square.
#[test]
fn integer_square_root() {
    assert_eq!(isqrt_u128(0), 0);
    assert_eq!(isqrt_u128(15), 3);
    assert_eq!(isqrt_u128(16), 4);
    assert_eq!(isqrt_u128(1_000_000), 1_000);
    assert_eq!(isqrt_u128((1u128 << 100) - 1), (1u128 << 50) - 1);
}

/// When irregular timing silences every fuzzy detector, the exact
/// clustering fallback still reports the periodicity.
#[test]
fn legacy_fallback_decides_irregular_timing() {
    let d = vec![50i64; 5];
    let inf = vec![25i64; 5];
    // Wildly irregular gaps: no velocity cluster, no rhythm mode, and
    // a sequence too short for any window to recur.
    let ts = vec![0u64, 1_000, 1_060, 7_060, 7_180, 16_180];
    let (p, details) = detect_fuzzy_modal_pattern(&d, &inf, &ts);
    let p = p.expect("five exact periods must cluster");
    assert_eq!(p.detection_method, PatternKind::LegacyExactClustering);
    assert_eq!(p.occurrence_count, 5);
    assert_eq!(p.confidence, 1_000_000);
    assert_eq!(p.frequency_minutes.num, 60 + 6_000 + 120 + 9_000);
    assert_eq!(p.frequency_minutes.den, 60 * 4);
    assert_eq!(
        details.legacy_confidence,
        Some(1_000_000),
        "the fallback's confidence is recorded"
    );
    assert_eq!(details.sequence_patterns_found, 0);
    assert_eq!(details.velocity_patterns_found, 0);
    assert_eq!(details.rhythm_patterns_found, 0);
}

/// Candidate periods pick up tick-pairs where both signals are
/// positive, with the timestamp that ends the pair.
#[test]
fn candidate_periods_alignment() {
    let d = vec![5i64, 0, -3, 7];
    let inf = vec![2i64, 9, 4, 0];
    let ts = vec![100u64, 200, 300, 400, 500];
    let ps = find_patterns_from_deltas(&d, &inf, &ts);
    assert_eq!(ps.len(), 1);
    assert_eq!(ps[0].position, 0);
    assert_eq!(ps[0].moving_week_delta, 5);
    assert_eq!(ps[0].inferred_volume, 2);
    assert_eq!(ps[0].timestamp, 200);
}
