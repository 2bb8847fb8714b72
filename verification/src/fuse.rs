//! Pattern fusion.
//!
//! The candidates of the three fuzzy detectors are pooled; the one with
//! the highest method confidence wins, the earlier candidate winning
//! among equals, and the pool's overall confidence is the average of
//! the candidates' confidences weighted by their method confidences.
//! When the fuzzy detectors yield nothing, exact/ratio clustering of
//! the candidate periods is the fallback.
use vstd::prelude::*;

use crate::frac::Frac;
use crate::legacy::{
    detect_modal_pattern_legacy, detector_input_wf, find_patterns_from_deltas, legacy_pattern,
    pattern_periods, periods_wf, sum_delta_from,
};
use crate::patterns::{
    first_max_from, fuzzy_wf, lemma_first_max_from, DetectionMethod, FuzzyPattern, ModalPattern,
    PatternPeriod, SidePatternDetails,
};
use crate::rhythm::{detect_rhythm_patterns, spec_detect_rhythm};
use crate::seqsim::{detect_sequence_similarity_patterns, spec_detect_seqsim};
use crate::store::DELTA_LIMIT;
use crate::velocity::{detect_velocity_patterns, spec_detect_velocity};

verus! {

/// Sum of the method confidences from position `j` on.
pub open spec fn sum_mconf(ps: Seq<FuzzyPattern>, j: int) -> int
    decreases ps.len() - j,
{
    if j < 0 || j >= ps.len() {
        0
    } else {
        ps[j].method_confidence + sum_mconf(ps, j + 1)
    }
}

/// Sum of the confidences weighted by method confidence, from `j` on.
pub open spec fn sum_weighted_conf(ps: Seq<FuzzyPattern>, j: int) -> int
    decreases ps.len() - j,
{
    if j < 0 || j >= ps.len() {
        0
    } else {
        ps[j].confidence * ps[j].method_confidence + sum_weighted_conf(ps, j + 1)
    }
}

/// What fusing a candidate pool yields: the best candidate's shape
/// under the pool's weighted confidence, with a unit ratio to be
/// settled by the caller.
pub open spec fn fuse_spec(all: Seq<FuzzyPattern>) -> Option<ModalPattern> {
    if all.len() == 0 {
        None
    } else {
        let best = all[first_max_from(all, 0)];
        let tw = sum_mconf(all, 0);
        let wc = if tw > 0 {
            sum_weighted_conf(all, 0) / tw
        } else {
            0
        };
        Some(
            ModalPattern {
                size: best.size,
                ratio: Frac { num: 1, den: 1 },
                frequency_minutes: best.frequency_minutes,
                occurrence_count: best.occurrences,
                confidence: wc as u64,
                detection_method: best.pattern_type,
            },
        )
    }
}

/// Partial confidence sums stay under the full micro-unit bounds.
pub proof fn lemma_fuse_sums(ps: Seq<FuzzyPattern>, j: int)
    requires
        forall|t: int| 0 <= t < ps.len() ==> fuzzy_wf(#[trigger] ps[t]),
    ensures
        0 <= sum_mconf(ps, j) <= (ps.len() - (if j < 0 {
            0int
        } else if j > ps.len() {
            ps.len() as int
        } else {
            j
        })) * 1_000_000,
        0 <= sum_weighted_conf(ps, j),
        sum_weighted_conf(ps, j) <= 1_000_000 * sum_mconf(ps, j),
    decreases ps.len() - j,
{
    if 0 <= j < ps.len() {
        lemma_fuse_sums(ps, j + 1);
        assert(fuzzy_wf(ps[j]));
        assert(ps[j].confidence * ps[j].method_confidence <= 1_000_000 * (
        ps[j].method_confidence as int)) by (nonlinear_arith)
            requires
                0 <= ps[j].confidence <= 1_000_000,
                0 <= ps[j].method_confidence,
        ;
        assert(0 <= ps[j].confidence * ps[j].method_confidence) by (nonlinear_arith)
            requires
                0 <= ps[j].confidence,
                0 <= ps[j].method_confidence,
        ;
    }
}

/// Fuses the candidate pools of the three fuzzy detectors into one
/// pattern: the highest method confidence wins, and the reported
/// confidence is the pool's weighted average.  The ratio is left at
/// one for the caller to settle.
pub fn fuse_fuzzy_patterns(
    seq_patterns: Vec<FuzzyPattern>,
    vel_patterns: Vec<FuzzyPattern>,
    rhythm_patterns: Vec<FuzzyPattern>,
) -> (r: Option<ModalPattern>)
    requires
        forall|t: int| 0 <= t < seq_patterns@.len() ==> fuzzy_wf(#[trigger] seq_patterns@[t]),
        forall|t: int| 0 <= t < vel_patterns@.len() ==> fuzzy_wf(#[trigger] vel_patterns@[t]),
        forall|t: int| 0 <= t < rhythm_patterns@.len() ==> fuzzy_wf(#[trigger] rhythm_patterns@[t]),
    ensures
        r == fuse_spec(seq_patterns@ + vel_patterns@ + rhythm_patterns@),
        r matches Some(p) ==> p.occurrence_count >= 3 && p.confidence <= 1_000_000 && p.size.wf()
            && p.ratio.wf() && p.frequency_minutes.wf(),
{
    let ghost target = seq_patterns@ + vel_patterns@ + rhythm_patterns@;
    let mut all = seq_patterns;
    let mut vel_patterns = vel_patterns;
    let mut rhythm_patterns = rhythm_patterns;
    all.append(&mut vel_patterns);
    all.append(&mut rhythm_patterns);
    assert(all@ =~= target);
    assert(forall|t: int| 0 <= t < all@.len() ==> fuzzy_wf(#[trigger] all@[t]));
    if all.len() == 0 {
        return None;
    }
    // The first candidate with the maximum method confidence.
    let mut best: usize = all.len() - 1;
    let mut j: usize = all.len() - 1;
    while j > 0
        invariant
            0 <= j < all@.len(),
            j <= best < all@.len(),
            best == first_max_from(all@, j as int),
        decreases j,
    {
        j -= 1;
        if all[j].method_confidence >= all[best].method_confidence {
            best = j;
        }
    }
    proof {
        lemma_first_max_from(all@, 0);
        lemma_fuse_sums(all@, 0);
    }
    // Weighted overall confidence of the pool.
    let mut tw: u128 = 0;
    let mut wsum: u128 = 0;
    let mut t: usize = 0;
    while t < all.len()
        invariant
            forall|x: int| 0 <= x < all@.len() ==> fuzzy_wf(#[trigger] all@[x]),
            0 <= t <= all@.len(),
            sum_mconf(all@, 0) == tw + sum_mconf(all@, t as int),
            sum_weighted_conf(all@, 0) == wsum + sum_weighted_conf(all@, t as int),
            tw <= t * 1_000_000,
            wsum <= 1_000_000 * tw,
        decreases all@.len() - t,
    {
        proof {
            lemma_fuse_sums(all@, t as int);
            lemma_fuse_sums(all@, t as int + 1);
            assert(fuzzy_wf(all@[t as int]));
            assert(all@[t as int].confidence * all@[t as int].method_confidence <= 1_000_000
                * (all@[t as int].method_confidence as int)) by (nonlinear_arith)
                requires
                    0 <= all@[t as int].confidence <= 1_000_000,
                    0 <= all@[t as int].method_confidence,
            ;
            assert((t as int) * 1_000_000 + 1_000_000 == ((t as int) + 1) * 1_000_000)
                by (nonlinear_arith);
            assert((t as int) * 1_000_000 <= 0x1_0000_0000_0000_0000 * 1_000_000)
                by (nonlinear_arith)
                requires
                    0 <= t as int <= 0x1_0000_0000_0000_0000,
            ;
            assert(1_000_000 * (tw as int) <= 1_000_000 * (0x1_0000_0000_0000_0000 * 1_000_000))
                by (nonlinear_arith)
                requires
                    0 <= tw as int <= 0x1_0000_0000_0000_0000 * 1_000_000,
            ;
        }
        let p = all[t];
        tw += p.method_confidence as u128;
        wsum += (p.confidence as u128) * (p.method_confidence as u128);
        t += 1;
    }
    let wc: u64 = if tw > 0 {
        proof {
            vstd::arithmetic::div_mod::lemma_div_is_ordered(
                wsum as int,
                1_000_000 * (tw as int),
                tw as int,
            );
            vstd::arithmetic::div_mod::lemma_div_multiples_vanish(1_000_000, tw as int);
            vstd::arithmetic::div_mod::lemma_div_pos_is_pos(wsum as int, tw as int);
        }
        (wsum / tw) as u64
    } else {
        0
    };
    let bp = all[best];
    Some(
        ModalPattern {
            size: bp.size,
            ratio: Frac::new(1, 1),
            frequency_minutes: bp.frequency_minutes,
            occurrence_count: bp.occurrences,
            confidence: wc,
            detection_method: bp.pattern_type,
        },
    )
}

/// Sum of the inferred volumes of the candidate periods from `j` on.
pub open spec fn sum_inferred_from(ps: Seq<PatternPeriod>, j: int) -> int
    decreases ps.len() - j,
{
    if j < 0 || j >= ps.len() {
        0
    } else {
        ps[j].inferred_volume + sum_inferred_from(ps, j + 1)
    }
}

/// The counter-delta-to-inferred-volume ratio across the candidate
/// periods, one when no volume was inferred.
pub open spec fn periods_ratio(ps: Seq<PatternPeriod>) -> Frac {
    if sum_inferred_from(ps, 0) > 0 {
        Frac { num: sum_delta_from(ps, 0) as i128, den: sum_inferred_from(ps, 0) as i128 }
    } else {
        Frac { num: 1, den: 1 }
    }
}

/// What one side's full pattern detection yields: the fused fuzzy
/// pattern with its ratio settled over the candidate periods, the
/// legacy clustering as fallback, and the bookkeeping of both.
pub open spec fn spec_detect_fuzzy_modal(d: Seq<i64>, inf: Seq<i64>, ts: Seq<u64>) -> (
    Option<ModalPattern>,
    SidePatternDetails,
) {
    let sp = spec_detect_seqsim(d, ts);
    let vp = spec_detect_velocity(d, ts);
    let rp = spec_detect_rhythm(d, ts);
    let base = SidePatternDetails {
        detection_method: DetectionMethod::FuzzyCombined,
        fuzzy_confidence: 0,
        legacy_confidence: None,
        sequence_patterns_found: sp.len() as usize,
        velocity_patterns_found: vp.len() as usize,
        rhythm_patterns_found: rp.len() as usize,
    };
    let periods = pattern_periods(d, inf, ts);
    if fuse_spec(sp + vp + rp) is Some {
        let fp0 = fuse_spec(sp + vp + rp)->0;
        let fp = if periods.len() > 0 {
            ModalPattern {
                size: fp0.size,
                ratio: periods_ratio(periods),
                frequency_minutes: fp0.frequency_minutes,
                occurrence_count: fp0.occurrence_count,
                confidence: fp0.confidence,
                detection_method: fp0.detection_method,
            }
        } else {
            fp0
        };
        (
            Some(fp),
            SidePatternDetails {
                detection_method: DetectionMethod::FuzzyCombined,
                fuzzy_confidence: fp.confidence,
                legacy_confidence: None,
                sequence_patterns_found: sp.len() as usize,
                velocity_patterns_found: vp.len() as usize,
                rhythm_patterns_found: rp.len() as usize,
            },
        )
    } else if legacy_pattern(periods) is Some {
        let lp = legacy_pattern(periods)->0;
        (
            Some(lp),
            SidePatternDetails {
                detection_method: DetectionMethod::LegacyClustering,
                fuzzy_confidence: 0,
                legacy_confidence: Some(lp.confidence),
                sequence_patterns_found: sp.len() as usize,
                velocity_patterns_found: vp.len() as usize,
                rhythm_patterns_found: rp.len() as usize,
            },
        )
    } else {
        (None, base)
    }
}

/// Each fuzzy detector reports a bounded number of candidates, so the
/// side bookkeeping counts are small.
pub proof fn lemma_detail_counts(d: Seq<i64>, inf: Seq<i64>, ts: Seq<u64>)
    ensures
        spec_detect_fuzzy_modal(d, inf, ts).1.sequence_patterns_found <= 3,
        spec_detect_fuzzy_modal(d, inf, ts).1.velocity_patterns_found <= 2,
        spec_detect_fuzzy_modal(d, inf, ts).1.rhythm_patterns_found <= 2,
{
    crate::patterns::lemma_select_top_len(crate::seqsim::patterns_all_from(d, ts, 3), 3);
    if crate::velocity::velocities(d, ts).len() >= 3 {
        crate::patterns::lemma_select_top_len(
            crate::velocity::clusters_to_patterns(
                crate::velocity::clusters_upto(
                    crate::velocity::velocities(d, ts),
                    crate::velocity::velocities(d, ts).len() as int,
                ),
                ts,
                crate::velocity::velocities(d, ts).len() as int,
                0,
            ),
            2,
        );
    }
    if crate::rhythm::activity(d).len() >= 3 {
        crate::patterns::lemma_select_top_len(crate::rhythm::rhythm_all_patterns(d, ts), 2);
    }
}

/// Runs the three fuzzy detectors over one side's delta history, fuses
/// their candidates, and falls back to exact/ratio clustering when the
/// fuzzy pool is empty.  A reported pattern is always backed by at
/// least three occurrences.
pub fn detect_fuzzy_modal_pattern(d: &Vec<i64>, inf: &Vec<i64>, ts: &Vec<u64>) -> (r: (
    Option<ModalPattern>,
    SidePatternDetails,
))
    requires
        detector_input_wf(d@, inf@, ts@),
    ensures
        r == spec_detect_fuzzy_modal(d@, inf@, ts@),
        r.0 matches Some(p) ==> p.occurrence_count >= 3 && p.confidence <= 1_000_000
            && p.size.wf() && p.ratio.wf() && p.frequency_minutes.wf(),
        r.1.fuzzy_confidence <= 1_000_000,
        r.1.legacy_confidence matches Some(c) ==> c <= 1_000_000,
{
    let sp = detect_sequence_similarity_patterns(d, ts);
    let vp = detect_velocity_patterns(d, ts);
    let rp = detect_rhythm_patterns(d, ts);
    let ghost spg = sp@;
    let ghost vpg = vp@;
    let ghost rpg = rp@;
    let sp_found = sp.len();
    let vp_found = vp.len();
    let rp_found = rp.len();
    let fused = fuse_fuzzy_patterns(sp, vp, rp);
    let periods = find_patterns_from_deltas(d, inf, ts);
    if let Some(fp0) = fused {
        let fp = if periods.len() > 0 {
            // Settle the ratio over the candidate periods.
            let mut tmw: i128 = 0;
            let mut tinf: i128 = 0;
            let mut j: usize = 0;
            while j < periods.len()
                invariant
                    periods_wf(periods@),
                    0 <= j <= periods@.len(),
                    sum_delta_from(periods@, 0) == tmw + sum_delta_from(periods@, j as int),
                    sum_inferred_from(periods@, 0) == tinf + sum_inferred_from(
                        periods@,
                        j as int,
                    ),
                    0 <= tmw <= j * DELTA_LIMIT,
                    0 <= tinf <= j * DELTA_LIMIT,
                decreases periods@.len() - j,
            {
                proof {
                    assert((j as int) * DELTA_LIMIT + DELTA_LIMIT == ((j as int) + 1)
                        * DELTA_LIMIT) by (nonlinear_arith);
                    assert(((j as int) + 1) * DELTA_LIMIT <= 0x100 * DELTA_LIMIT)
                        by (nonlinear_arith)
                        requires
                            (j as int) + 1 <= 0x100,
                    ;
                }
                let p = periods[j];
                tmw += p.moving_week_delta as i128;
                tinf += p.inferred_volume as i128;
                j += 1;
            }
            let ratio = if tinf > 0 {
                Frac::new(tmw, tinf)
            } else {
                Frac::new(1, 1)
            };
            ModalPattern {
                size: fp0.size,
                ratio,
                frequency_minutes: fp0.frequency_minutes,
                occurrence_count: fp0.occurrence_count,
                confidence: fp0.confidence,
                detection_method: fp0.detection_method,
            }
        } else {
            fp0
        };
        let details = SidePatternDetails {
            detection_method: DetectionMethod::FuzzyCombined,
            fuzzy_confidence: fp.confidence,
            legacy_confidence: None,
            sequence_patterns_found: sp_found,
            velocity_patterns_found: vp_found,
            rhythm_patterns_found: rp_found,
        };
        return (Some(fp), details);
    }
    if let Some(lp) = detect_modal_pattern_legacy(&periods) {
        let details = SidePatternDetails {
            detection_method: DetectionMethod::LegacyClustering,
            fuzzy_confidence: 0,
            legacy_confidence: Some(lp.confidence),
            sequence_patterns_found: sp_found,
            velocity_patterns_found: vp_found,
            rhythm_patterns_found: rp_found,
        };
        return (Some(lp), details);
    }
    let details = SidePatternDetails {
        detection_method: DetectionMethod::FuzzyCombined,
        fuzzy_confidence: 0,
        legacy_confidence: None,
        sequence_patterns_found: sp_found,
        velocity_patterns_found: vp_found,
        rhythm_patterns_found: rp_found,
    };
    (None, details)
}

} // verus!
