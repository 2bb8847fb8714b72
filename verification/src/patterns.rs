//! Pattern candidate types and best-first selection.
//!
//! Detector confidences are carried in micro-units: a confidence of one
//! million means certainty, so every confidence value lies in
//! `0 ..= 1_000_000`.
use vstd::prelude::*;

use crate::frac::Frac;

verus! {

/// One micro-unit short scale: the fixed-point denominator of every
/// confidence the detectors report.
pub const CONFIDENCE_ONE: u64 = 1_000_000;

/// Largest input length any detector accepts.  The rolling store stays
/// well below it; the bound keeps detector arithmetic in range.
pub const SEQ_LIMIT: usize = 256;

/// Which detection strategy produced a pattern candidate.
#[derive(Clone, Copy, Debug, PartialEq, Eq, Structural)]
pub enum PatternKind {
    /// Subsequence-similarity matching over the delta sequence.
    SequenceSimilarity,
    /// Velocity clustering with regular inter-arrival intervals.
    VelocityRegular,
    /// Rhythm clustering of inter-arrival intervals at 20% tolerance.
    RhythmTwentyPct,
    /// Rhythm clustering of inter-arrival intervals at 40% tolerance.
    RhythmFortyPct,
    /// Rhythm clustering of inter-arrival intervals at 60% tolerance.
    RhythmSixtyPct,
    /// Exact/ratio clustering of counter deltas against inferred volume.
    LegacyExactClustering,
}

/// Which detection family settled a side's reported pattern.
#[derive(Clone, Copy, Debug, PartialEq, Eq, Structural)]
pub enum DetectionMethod {
    /// The fused output of the fuzzy detectors.
    FuzzyCombined,
    /// The exact/ratio clustering fallback.
    LegacyClustering,
}

/// A periodicity candidate reported by one fuzzy detector.
#[derive(Clone, Copy, Debug)]
pub struct FuzzyPattern {
    pub pattern_type: PatternKind,
    /// Typical per-event volume.
    pub size: Frac,
    /// Mean inter-arrival time of the occurrences, in minutes.
    pub frequency_minutes: Frac,
    /// Share of candidate periods explained, micro-units of one.
    pub confidence: u64,
    /// Number of occurrences backing the candidate.
    pub occurrences: usize,
    /// Detector-weighted confidence used for ranking, micro-units.
    pub method_confidence: u64,
}

/// The single pattern selected for one side of an entity.
#[derive(Clone, Copy, Debug)]
pub struct ModalPattern {
    /// Typical per-event volume.
    pub size: Frac,
    /// Counter delta per unit of inferred volume across the candidate
    /// periods.
    pub ratio: Frac,
    /// Mean inter-arrival time of the occurrences, in minutes.
    pub frequency_minutes: Frac,
    pub occurrence_count: usize,
    /// Overall confidence, micro-units of one.
    pub confidence: u64,
    pub detection_method: PatternKind,
}

/// One tick-pair where both the counter delta and the inferred consumed
/// volume are positive: a candidate activity event.
#[derive(Clone, Copy, Debug, PartialEq, Eq, Structural)]
pub struct PatternPeriod {
    pub position: usize,
    pub moving_week_delta: i64,
    pub inferred_volume: i64,
    pub timestamp: u64,
}

/// How one side's pattern was found, and how many candidates each fuzzy
/// detector produced.
#[derive(Clone, Copy, Debug)]
pub struct SidePatternDetails {
    pub detection_method: DetectionMethod,
    /// Confidence of the fused fuzzy pattern, micro-units; zero when the
    /// fuzzy detectors yielded nothing.
    pub fuzzy_confidence: u64,
    /// Confidence of the legacy fallback, when it decided the side.
    pub legacy_confidence: Option<u64>,
    pub sequence_patterns_found: usize,
    pub velocity_patterns_found: usize,
    pub rhythm_patterns_found: usize,
}

/// What holds of every pattern candidate a detector reports: at least
/// three occurrences back it, its confidences are genuine micro-unit
/// shares, and its fractions are well formed.
pub open spec fn fuzzy_wf(p: FuzzyPattern) -> bool {
    &&& p.occurrences >= 3
    &&& p.confidence <= 1_000_000
    &&& p.method_confidence <= 1_000_000
    &&& p.size.wf()
    &&& p.frequency_minutes.wf()
}

/// The share `cnt / total` in micro-units.
pub open spec fn conf_of(cnt: int, total: int) -> int {
    cnt * 1_000_000 / total
}

/// Computes the micro-unit share `cnt / total`, never above one million.
pub fn confidence_ratio(cnt: usize, total: usize) -> (r: u64)
    requires
        0 < total <= 0x1_0000_0000,
        cnt <= total,
    ensures
        r == conf_of(cnt as int, total as int),
        r <= 1_000_000,
{
    proof {
        vstd::arithmetic::div_mod::lemma_div_is_ordered(
            cnt as int * 1_000_000,
            total as int * 1_000_000,
            total as int,
        );
        vstd::arithmetic::div_mod::lemma_div_multiples_vanish(1_000_000, total as int);
    }
    (((cnt as u64) * 1_000_000) / (total as u64)) as u64
}

/// Index of the first pattern holding the maximum method confidence in
/// `s[i..]`.
pub open spec fn first_max_from(s: Seq<FuzzyPattern>, i: int) -> int
    decreases s.len() - i,
{
    if i >= s.len() - 1 {
        s.len() - 1
    } else {
        let r = first_max_from(s, i + 1);
        if s[i].method_confidence >= s[r].method_confidence {
            i
        } else {
            r
        }
    }
}

/// The first maximum really lies in range and is maximal.
pub proof fn lemma_first_max_from(s: Seq<FuzzyPattern>, i: int)
    requires
        0 <= i < s.len(),
    ensures
        i <= first_max_from(s, i) < s.len(),
        forall|j: int|
            i <= j < s.len() ==> (#[trigger] s[j]).method_confidence <= s[first_max_from(
                s,
                i,
            )].method_confidence,
    decreases s.len() - i,
{
    if i < s.len() - 1 {
        lemma_first_max_from(s, i + 1);
    }
}

/// The `k` best candidates by method confidence, best first; among equal
/// confidences the earlier candidate wins.
pub open spec fn select_top(s: Seq<FuzzyPattern>, k: int) -> Seq<FuzzyPattern>
    decreases k,
{
    if k <= 0 || s.len() == 0 {
        Seq::empty()
    } else {
        let i = first_max_from(s, 0);
        seq![s[i]] + select_top(s.remove(i), k - 1)
    }
}

/// Everything an element-removal leaves is an element of the source
/// sequence.
pub proof fn lemma_remove_contains(s: Seq<FuzzyPattern>, i: int, x: FuzzyPattern)
    requires
        0 <= i < s.len(),
        s.remove(i).contains(x),
    ensures
        s.contains(x),
{
    let j = choose|j: int| 0 <= j < s.remove(i).len() && s.remove(i)[j] == x;
    if j < i {
        assert(s[j] == x);
    } else {
        assert(s[j + 1] == x);
    }
}

/// Every selected pattern is one of the candidates.
pub proof fn lemma_select_top_membership(s: Seq<FuzzyPattern>, k: int)
    ensures
        forall|j: int| 0 <= j < select_top(s, k).len() ==> s.contains(#[trigger] select_top(s, k)[j]),
    decreases k,
{
    if k > 0 && s.len() > 0 {
        let i = first_max_from(s, 0);
        lemma_first_max_from(s, 0);
        lemma_select_top_membership(s.remove(i), k - 1);
        assert forall|j: int| 0 <= j < select_top(s, k).len() implies s.contains(
            #[trigger] select_top(s, k)[j],
        ) by {
            if j == 0 {
                assert(select_top(s, k)[0] == s[i]);
            } else {
                assert(select_top(s, k)[j] == select_top(s.remove(i), k - 1)[j - 1]);
                assert(s.remove(i).contains(select_top(s.remove(i), k - 1)[j - 1]));
                lemma_remove_contains(s, i, select_top(s.remove(i), k - 1)[j - 1]);
            }
        }
    }
}

/// A top-`k` selection never exceeds `k` entries.
pub proof fn lemma_select_top_len(s: Seq<FuzzyPattern>, k: int)
    ensures
        select_top(s, k).len() <= (if k >= 0 {
            k
        } else {
            0int
        }),
    decreases k,
{
    if k > 0 && s.len() > 0 {
        lemma_first_max_from(s, 0);
        lemma_select_top_len(s.remove(first_max_from(s, 0)), k - 1);
    }
}

/// Keeps the `k` best candidates by method confidence, best first, the
/// earlier candidate winning among equals.
pub fn select_top_k(v: Vec<FuzzyPattern>, k: usize) -> (r: Vec<FuzzyPattern>)
    ensures
        r@ == select_top(v@, k as int),
{
    let ghost orig = v@;
    let mut v = v;
    let mut out: Vec<FuzzyPattern> = Vec::new();
    while out.len() < k && v.len() > 0
        invariant
            select_top(orig, k as int) == out@ + select_top(v@, k - out@.len()),
            out@.len() <= k,
        decreases k - out@.len(),
    {
        let mut best: usize = v.len() - 1;
        let mut j: usize = v.len() - 1;
        while j > 0
            invariant
                0 <= j < v@.len(),
                j <= best < v@.len(),
                best == first_max_from(v@, j as int),
            decreases j,
        {
            j -= 1;
            if v[j].method_confidence >= v[best].method_confidence {
                best = j;
            }
        }
        proof {
            lemma_first_max_from(v@, 0);
        }
        let picked = v.remove(best);
        out.push(picked);
        proof {
            assert(out@.last() == picked);
        }
    }
    proof {
        if out@.len() == k {
            assert(select_top(v@, 0) =~= Seq::<FuzzyPattern>::empty());
        }
        assert(out@ + Seq::<FuzzyPattern>::empty() =~= out@);
    }
    out
}

} // verus!
