//! Rhythm pattern detection.
//!
//! Extracts the timestamps of all positive-delta ticks, forms the
//! inter-arrival intervals, and greedily clusters intervals that lie
//! within a relative tolerance of a seed interval, sweeping the
//! tolerances 20%, 40% and 60%; a cluster of at least three intervals
//! becomes a pattern candidate, tighter tolerance earning a regularity
//! bonus in the ranking confidence.
use vstd::prelude::*;

use crate::frac::Frac;
use crate::patterns::{
    conf_of, confidence_ratio, fuzzy_wf, lemma_select_top_len, lemma_select_top_membership,
    select_top, select_top_k, FuzzyPattern, PatternKind, SEQ_LIMIT,
};
use crate::snapshot::TS_LIMIT;
use crate::store::DELTA_LIMIT;
use crate::util::{sat_sub, sat_sub_u64, spec_max};

verus! {

/// One positive-delta tick: its position and its delta.
#[derive(Clone, Copy, Debug, PartialEq, Eq, Structural)]
pub struct ActivityTick {
    pub pos: usize,
    pub delta: i64,
}

/// One greedy interval cluster: the sum of its member intervals in
/// seconds, and how many it holds.
#[derive(Clone, Copy, Debug, PartialEq, Eq, Structural)]
pub struct Mode {
    pub interval_sum: u64,
    pub count: usize,
}

/// The positive-delta ticks from position `i` on.
pub open spec fn activity_from(d: Seq<i64>, i: int) -> Seq<ActivityTick>
    decreases d.len() - i,
{
    if i < 0 || i >= d.len() {
        Seq::empty()
    } else {
        let rest = activity_from(d, i + 1);
        if d[i] > 0 {
            seq![ActivityTick { pos: i as usize, delta: d[i] }] + rest
        } else {
            rest
        }
    }
}

pub open spec fn activity(d: Seq<i64>) -> Seq<ActivityTick> {
    activity_from(d, 0)
}

/// Positions of activity ticks are in range and their deltas bounded.
pub proof fn lemma_activity_wf(d: Seq<i64>, i: int)
    requires
        d.len() <= SEQ_LIMIT,
        forall|t: int| 0 <= t < d.len() ==> -DELTA_LIMIT <= #[trigger] d[t] <= DELTA_LIMIT,
    ensures
        forall|j: int|
            0 <= j < activity_from(d, i).len() ==> {
                &&& i <= (#[trigger] activity_from(d, i)[j]).pos < d.len()
                &&& 0 < activity_from(d, i)[j].delta <= DELTA_LIMIT
            },
        activity_from(d, i).len() <= d.len() - (if i < 0 {
            0int
        } else if i > d.len() {
            d.len() as int
        } else {
            i
        }),
    decreases d.len() - i,
{
    if 0 <= i < d.len() {
        lemma_activity_wf(d, i + 1);
        let rest = activity_from(d, i + 1);
        if d[i] > 0 {
            assert forall|j: int| 0 <= j < activity_from(d, i).len() implies {
                &&& i <= (#[trigger] activity_from(d, i)[j]).pos < d.len()
                &&& 0 < activity_from(d, i)[j].delta <= DELTA_LIMIT
            } by {
                if j > 0 {
                    assert(activity_from(d, i)[j] == rest[j - 1]);
                } else {
                    assert(-DELTA_LIMIT <= d[i] <= DELTA_LIMIT);
                    assert(activity_from(d, i)[0] == ActivityTick { pos: i as usize, delta: d[i] });
                }
            }
        } else {
            assert forall|j: int| 0 <= j < activity_from(d, i).len() implies {
                &&& i <= (#[trigger] activity_from(d, i)[j]).pos < d.len()
                &&& 0 < activity_from(d, i)[j].delta <= DELTA_LIMIT
            } by {
                assert(activity_from(d, i)[j] == rest[j]);
            }
        }
    }
}

/// The inter-arrival intervals of the activity ticks, in seconds, each
/// measured between the timestamps ending the two tick-pairs and
/// clamped at zero.
pub open spec fn intervals_from(a: Seq<ActivityTick>, ts: Seq<u64>, j: int) -> Seq<u64>
    decreases a.len() - j,
{
    if j < 0 || j + 1 >= a.len() {
        Seq::empty()
    } else {
        seq![sat_sub(ts[a[j + 1].pos + 1] as int, ts[a[j].pos + 1] as int) as u64] + intervals_from(
            a,
            ts,
            j + 1,
        )
    }
}

pub open spec fn intervals_of(a: Seq<ActivityTick>, ts: Seq<u64>) -> Seq<u64> {
    intervals_from(a, ts, 0)
}

/// Interval sequences are bounded by the timestamp bound.
pub proof fn lemma_intervals_wf(a: Seq<ActivityTick>, ts: Seq<u64>, j: int)
    requires
        forall|t: int| 0 <= t < ts.len() ==> #[trigger] ts[t] <= TS_LIMIT,
        forall|t: int| 0 <= t < a.len() ==> (#[trigger] a[t]).pos + 1 < ts.len(),
    ensures
        forall|t: int|
            0 <= t < intervals_from(a, ts, j).len() ==> #[trigger] intervals_from(a, ts, j)[t]
                <= TS_LIMIT,
        intervals_from(a, ts, j).len() == (if 0 <= j && j + 1 < a.len() {
            a.len() - 1 - j
        } else {
            0int
        }),
    decreases a.len() - j,
{
    if 0 <= j && j + 1 < a.len() {
        lemma_intervals_wf(a, ts, j + 1);
        let rest = intervals_from(a, ts, j + 1);
        assert forall|t: int| 0 <= t < intervals_from(a, ts, j).len() implies #[trigger] intervals_from(
            a,
            ts,
            j,
        )[t] <= TS_LIMIT by {
            if t > 0 {
                assert(intervals_from(a, ts, j)[t] == rest[t - 1]);
            }
        }
    }
}

/// Sum of the deltas of the activity ticks from `j` on.
pub open spec fn activity_delta_sum_from(a: Seq<ActivityTick>, j: int) -> int
    decreases a.len() - j,
{
    if j < 0 || j >= a.len() {
        0
    } else {
        a[j].delta + activity_delta_sum_from(a, j + 1)
    }
}

/// Whether `other` lies within `tol_pct` percent of the seed interval,
/// the seed floored at six seconds so that near-zero seeds do not blow
/// the relative difference up.
pub open spec fn rhythm_match(seed: int, other: int, tol_pct: int) -> bool {
    100 * (if seed >= other {
        seed - other
    } else {
        other - seed
    }) <= tol_pct * spec_max(seed, 6)
}

/// The greedy scan that grows the cluster seeded at `i`: walking `j`
/// upward, every unused interval within tolerance of the seed is taken.
/// Returns the used flags after the scan, the sum of the taken
/// intervals, and how many were taken.
pub open spec fn cluster_scan(
    iv: Seq<u64>,
    tol: int,
    i: int,
    used: Seq<bool>,
    j: int,
) -> (Seq<bool>, int, int)
    decreases iv.len() - j,
{
    if j < 0 || j >= iv.len() {
        (used, 0, 0)
    } else if j != i && !used[j] && rhythm_match(iv[i] as int, iv[j] as int, tol) {
        let r = cluster_scan(iv, tol, i, used.update(j, true), j + 1);
        (r.0, r.1 + iv[j], r.2 + 1)
    } else {
        cluster_scan(iv, tol, i, used, j + 1)
    }
}

/// The scan takes at most one interval per position, never the seed,
/// keeps the flag count, and its sum is bounded.
pub proof fn lemma_cluster_scan_bounds(iv: Seq<u64>, tol: int, i: int, used: Seq<bool>, j: int)
    requires
        0 <= i < iv.len(),
        used.len() == iv.len(),
        forall|t: int| 0 <= t < iv.len() ==> #[trigger] iv[t] <= TS_LIMIT,
    ensures
        cluster_scan(iv, tol, i, used, j).0.len() == iv.len(),
        0 <= cluster_scan(iv, tol, i, used, j).2 <= iv.len() - (if j < 0 {
            0int
        } else if j > iv.len() {
            iv.len() as int
        } else {
            j
        }) - (if (if j < 0 {
            0int
        } else {
            j
        }) <= i {
            1int
        } else {
            0int
        }),
        0 <= cluster_scan(iv, tol, i, used, j).1 <= cluster_scan(iv, tol, i, used, j).2 * (
        TS_LIMIT as int),
    decreases iv.len() - j,
{
    if 0 <= j < iv.len() {
        if j != i && !used[j] && rhythm_match(iv[i] as int, iv[j] as int, tol) {
            lemma_cluster_scan_bounds(iv, tol, i, used.update(j, true), j + 1);
            let r = cluster_scan(iv, tol, i, used.update(j, true), j + 1);
            assert((r.2 + 1) * (TS_LIMIT as int) == r.2 * (TS_LIMIT as int) + TS_LIMIT as int)
                by (nonlinear_arith);
        } else {
            lemma_cluster_scan_bounds(iv, tol, i, used, j + 1);
        }
    }
}

/// The greedy clustering over the first `i` seeds: each unused position
/// seeds a cluster of itself and every unused interval within
/// tolerance; clusters of at least two intervals are kept as modes.
pub open spec fn rhythm_fold(iv: Seq<u64>, tol: int, i: int) -> (Seq<bool>, Seq<Mode>)
    decreases i,
{
    if i <= 0 {
        (Seq::new(iv.len(), |t: int| false), Seq::empty())
    } else {
        let prev = rhythm_fold(iv, tol, i - 1);
        let i0 = i - 1;
        if prev.0[i0] {
            prev
        } else {
            let u1 = prev.0.update(i0, true);
            let scan = cluster_scan(iv, tol, i0, u1, 0);
            let csum = scan.1 + iv[i0];
            let ccount = scan.2 + 1;
            if ccount >= 2 {
                (scan.0, prev.1.push(Mode { interval_sum: csum as u64, count: ccount as usize }))
            } else {
                (scan.0, prev.1)
            }
        }
    }
}

/// The modes that greedy clustering finds: every mode sums the
/// intervals of one cluster of at least two.
pub open spec fn rhythm_modes(iv: Seq<u64>, tol: int) -> Seq<Mode> {
    rhythm_fold(iv, tol, iv.len() as int).1
}

/// Every mode of the fold holds between two and all intervals, and its
/// sum is bounded.
pub proof fn lemma_rhythm_fold_wf(iv: Seq<u64>, tol: int, i: int)
    requires
        0 <= i <= iv.len(),
        iv.len() <= SEQ_LIMIT,
        forall|t: int| 0 <= t < iv.len() ==> #[trigger] iv[t] <= TS_LIMIT,
    ensures
        rhythm_fold(iv, tol, i).0.len() == iv.len(),
        forall|m: int|
            0 <= m < rhythm_fold(iv, tol, i).1.len() ==> {
                &&& 2 <= (#[trigger] rhythm_fold(iv, tol, i).1[m]).count <= iv.len()
                &&& rhythm_fold(iv, tol, i).1[m].interval_sum <= iv.len() * (TS_LIMIT as int)
            },
    decreases i,
{
    if i > 0 {
        lemma_rhythm_fold_wf(iv, tol, i - 1);
        let prev = rhythm_fold(iv, tol, i - 1);
        let i0 = i - 1;
        if !prev.0[i0] {
            let u1 = prev.0.update(i0, true);
            lemma_cluster_scan_bounds(iv, tol, i0, u1, 0);
            let scan = cluster_scan(iv, tol, i0, u1, 0);
            assert(scan.1 <= scan.2 * (TS_LIMIT as int));
            assert(scan.2 * (TS_LIMIT as int) <= (iv.len() - 1) * (TS_LIMIT as int))
                by (nonlinear_arith)
                requires
                    scan.2 <= iv.len() - 1,
                    TS_LIMIT as int > 0,
            ;
            assert((iv.len() - 1) * (TS_LIMIT as int) + TS_LIMIT as int == iv.len() * (
            TS_LIMIT as int)) by (nonlinear_arith);
            let csum = scan.1 + iv[i0];
            let ccount = scan.2 + 1;
            if ccount >= 2 {
                let mode = Mode { interval_sum: csum as u64, count: ccount as usize };
                let cur = rhythm_fold(iv, tol, i);
                assert(cur.1 == prev.1.push(mode));
                assert forall|m: int| 0 <= m < cur.1.len() implies {
                    &&& 2 <= (#[trigger] cur.1[m]).count <= iv.len()
                    &&& cur.1[m].interval_sum <= iv.len() * (TS_LIMIT as int)
                } by {
                    if m < prev.1.len() {
                        assert(cur.1[m] == prev.1[m]);
                    } else {
                        assert(cur.1[m] == mode);
                    }
                }
            }
        }
    }
}

/// The ranking weight of a rhythm pattern: its confidence, scaled by
/// the regularity bonus of the tolerance and the detector weight of
/// eighty-five hundredths.
pub open spec fn rhythm_method_conf(conf: int, tol: int) -> int {
    conf * (100 - tol) * 85 / 10000
}

/// The detector tag of each swept tolerance.
pub open spec fn kind_for_tol(tol: int) -> PatternKind {
    if tol == 20 {
        PatternKind::RhythmTwentyPct
    } else if tol == 40 {
        PatternKind::RhythmFortyPct
    } else {
        PatternKind::RhythmSixtyPct
    }
}

/// The pattern candidate one accepted mode yields.
pub open spec fn mode_pattern(m: Mode, tol: int, total_ivs: int, size: Frac) -> FuzzyPattern {
    FuzzyPattern {
        pattern_type: kind_for_tol(tol),
        size,
        frequency_minutes: Frac {
            num: m.interval_sum as i128,
            den: (60 * m.count) as i128,
        },
        confidence: conf_of(m.count as int, total_ivs) as u64,
        occurrences: m.count,
        method_confidence: rhythm_method_conf(conf_of(m.count as int, total_ivs), tol) as u64,
    }
}

/// The candidates of one tolerance sweep: every mode of at least three
/// intervals, in discovery order.
pub open spec fn modes_to_patterns(
    ms: Seq<Mode>,
    tol: int,
    total_ivs: int,
    size: Frac,
    j: int,
) -> Seq<FuzzyPattern>
    decreases ms.len() - j,
{
    if j < 0 || j >= ms.len() {
        Seq::empty()
    } else {
        let rest = modes_to_patterns(ms, tol, total_ivs, size, j + 1);
        if ms[j].count >= 3 {
            seq![mode_pattern(ms[j], tol, total_ivs, size)] + rest
        } else {
            rest
        }
    }
}

/// All rhythm candidates of a detector input, the three tolerance
/// sweeps concatenated; empty when fewer than three ticks show
/// activity.
pub open spec fn rhythm_all_patterns(d: Seq<i64>, ts: Seq<u64>) -> Seq<FuzzyPattern> {
    let a = activity(d);
    let iv = intervals_of(a, ts);
    let size = Frac {
        num: activity_delta_sum_from(a, 0) as i128,
        den: a.len() as i128,
    };
    modes_to_patterns(rhythm_modes(iv, 20), 20, iv.len() as int, size, 0) + modes_to_patterns(
        rhythm_modes(iv, 40),
        40,
        iv.len() as int,
        size,
        0,
    ) + modes_to_patterns(rhythm_modes(iv, 60), 60, iv.len() as int, size, 0)
}

/// What rhythm detection reports: the two best candidates, or nothing
/// from fewer than three activity ticks.
pub open spec fn spec_detect_rhythm(d: Seq<i64>, ts: Seq<u64>) -> Seq<FuzzyPattern> {
    if activity(d).len() < 3 {
        Seq::empty()
    } else {
        select_top(rhythm_all_patterns(d, ts), 2)
    }
}

/// Collects the positive-delta ticks.
fn collect_activity(d: &Vec<i64>) -> (r: Vec<ActivityTick>)
    requires
        forall|t: int| 0 <= t < d@.len() ==> -DELTA_LIMIT <= #[trigger] d@[t] <= DELTA_LIMIT,
        d@.len() <= SEQ_LIMIT,
    ensures
        r@ == activity(d@),
        r@.len() <= d@.len(),
{
    let mut out: Vec<ActivityTick> = Vec::new();
    let mut i: usize = 0;
    while i < d.len()
        invariant
            forall|t: int| 0 <= t < d@.len() ==> -DELTA_LIMIT <= #[trigger] d@[t] <= DELTA_LIMIT,
            0 <= i <= d@.len(),
            activity(d@) == out@ + activity_from(d@, i as int),
            out@.len() <= i,
        decreases d@.len() - i,
    {
        let ghost pre = out@;
        if d[i] > 0 {
            out.push(ActivityTick { pos: i, delta: d[i] });
            assert(pre + activity_from(d@, i as int) =~= out@ + activity_from(d@, i as int + 1));
        }
        i += 1;
    }
    assert(activity_from(d@, d@.len() as int) =~= Seq::<ActivityTick>::empty());
    assert(out@ + Seq::<ActivityTick>::empty() =~= out@);
    out
}

/// Greedily clusters intervals within a relative tolerance of a seed,
/// one cluster per unused seed, and keeps every cluster of at least
/// two intervals as a mode.
pub fn find_approximate_modes(iv: &Vec<u64>, tol_pct: u64) -> (r: Vec<Mode>)
    requires
        forall|t: int| 0 <= t < iv@.len() ==> #[trigger] iv@[t] <= TS_LIMIT,
        iv@.len() <= SEQ_LIMIT,
        0 < tol_pct <= 100,
    ensures
        r@ == rhythm_modes(iv@, tol_pct as int),
{
    let mut used: Vec<bool> = Vec::new();
    let mut t: usize = 0;
    while t < iv.len()
        invariant
            0 <= t <= iv@.len(),
            used@ =~= Seq::new(t as nat, |x: int| false),
        decreases iv@.len() - t,
    {
        used.push(false);
        t += 1;
    }
    assert(used@ =~= Seq::new(iv@.len(), |x: int| false));
    let mut modes: Vec<Mode> = Vec::new();
    let mut i: usize = 0;
    while i < iv.len()
        invariant
            forall|x: int| 0 <= x < iv@.len() ==> #[trigger] iv@[x] <= TS_LIMIT,
            iv@.len() <= SEQ_LIMIT,
            0 < tol_pct <= 100,
            0 <= i <= iv@.len(),
            used@.len() == iv@.len(),
            rhythm_fold(iv@, tol_pct as int, i as int).0 == used@,
            rhythm_fold(iv@, tol_pct as int, i as int).1 == modes@,
        decreases iv@.len() - i,
    {
        if !used[i] {
            used.set(i, true);
            let scan = cluster_scan_exec(iv, tol_pct, i, &mut used);
            proof {
                lemma_cluster_scan_bounds(
                    iv@,
                    tol_pct as int,
                    i as int,
                    rhythm_fold(iv@, tol_pct as int, i as int).0.update(i as int, true),
                    0,
                );
                assert(scan.0 as int <= (SEQ_LIMIT as int) * (TS_LIMIT as int))
                    by (nonlinear_arith)
                    requires
                        scan.0 as int <= scan.1 as int * (TS_LIMIT as int),
                        scan.1 as int <= SEQ_LIMIT as int,
                        TS_LIMIT as int > 0,
                ;
            }
            let csum = scan.0 + iv[i];
            let ccount = scan.1 + 1;
            if ccount >= 2 {
                modes.push(Mode { interval_sum: csum, count: ccount });
            }
        }
        i += 1;
    }
    modes
}

/// The greedy scan seeded at `i`: takes every unused interval within
/// tolerance, marking it used, and returns the taken sum and count.
fn cluster_scan_exec(iv: &Vec<u64>, tol: u64, i: usize, used: &mut Vec<bool>) -> (r: (u64, usize))
    requires
        forall|t: int| 0 <= t < iv@.len() ==> #[trigger] iv@[t] <= TS_LIMIT,
        iv@.len() <= SEQ_LIMIT,
        0 < tol <= 100,
        i < iv@.len(),
        old(used)@.len() == iv@.len(),
    ensures
        final(used)@ == cluster_scan(iv@, tol as int, i as int, old(used)@, 0).0,
        r.0 == cluster_scan(iv@, tol as int, i as int, old(used)@, 0).1,
        r.1 == cluster_scan(iv@, tol as int, i as int, old(used)@, 0).2,
        final(used)@.len() == iv@.len(),
{
    let ghost used0 = used@;
    let ghost target = cluster_scan(iv@, tol as int, i as int, used0, 0);
    proof {
        lemma_cluster_scan_bounds(iv@, tol as int, i as int, used0, 0);
    }
    let mut sum: u64 = 0;
    let mut cnt: usize = 0;
    let mut j: usize = 0;
    while j < iv.len()
        invariant
            forall|t: int| 0 <= t < iv@.len() ==> #[trigger] iv@[t] <= TS_LIMIT,
            iv@.len() <= SEQ_LIMIT,
            0 < tol <= 100,
            i < iv@.len(),
            used@.len() == iv@.len(),
            0 <= j <= iv@.len(),
            cnt <= j,
            sum <= j * (TS_LIMIT as int),
            target == cluster_scan(iv@, tol as int, i as int, used0, 0),
            target.0 == cluster_scan(iv@, tol as int, i as int, used@, j as int).0,
            target.1 == sum + cluster_scan(iv@, tol as int, i as int, used@, j as int).1,
            target.2 == cnt + cluster_scan(iv@, tol as int, i as int, used@, j as int).2,
        decreases iv@.len() - j,
    {
        proof {
            assert((j as int) * (TS_LIMIT as int) + TS_LIMIT as int == ((j as int) + 1) * (
            TS_LIMIT as int)) by (nonlinear_arith);
            assert(((j as int) + 1) * (TS_LIMIT as int) <= (SEQ_LIMIT as int) * (TS_LIMIT as int))
                by (nonlinear_arith)
                requires
                    (j as int) + 1 <= SEQ_LIMIT as int,
            ;
        }
        if j != i && !used[j] && rhythm_match_exec(iv[i], iv[j], tol) {
            used.set(j, true);
            sum += iv[j];
            cnt += 1;
        }
        j += 1;
    }
    (sum, cnt)
}

/// Whether `other` lies within the relative tolerance of the seed.
fn rhythm_match_exec(seed: u64, other: u64, tol_pct: u64) -> (r: bool)
    requires
        seed <= TS_LIMIT,
        other <= TS_LIMIT,
        0 < tol_pct <= 100,
    ensures
        r == rhythm_match(seed as int, other as int, tol_pct as int),
{
    let diff = if seed >= other {
        seed - other
    } else {
        other - seed
    };
    let floor = if seed >= 6 {
        seed
    } else {
        6
    };
    proof {
        assert(tol_pct as int * floor as int <= 100 * 0x100_0000_0000) by (nonlinear_arith)
            requires
                0 < tol_pct as int <= 100,
                0 <= floor as int <= 0x100_0000_0000,
        ;
    }
    100 * diff <= tol_pct * floor
}

/// Turns the accepted modes of one tolerance sweep into candidates.
fn modes_to_patterns_exec(
    ms: &Vec<Mode>,
    tol: u64,
    total_ivs: usize,
    size: Frac,
) -> (r: Vec<FuzzyPattern>)
    requires
        0 < tol <= 60,
        0 < total_ivs <= SEQ_LIMIT,
        forall|m: int| 0 <= m < ms@.len() ==> 2 <= (#[trigger] ms@[m]).count <= total_ivs,
        size.wf(),
    ensures
        r@ == modes_to_patterns(ms@, tol as int, total_ivs as int, size, 0),
        forall|j: int| 0 <= j < r@.len() ==> fuzzy_wf(#[trigger] r@[j]),
{
    let mut out: Vec<FuzzyPattern> = Vec::new();
    let mut j: usize = 0;
    while j < ms.len()
        invariant
            0 < tol <= 60,
            0 < total_ivs <= SEQ_LIMIT,
            forall|m: int| 0 <= m < ms@.len() ==> 2 <= (#[trigger] ms@[m]).count <= total_ivs,
            size.wf(),
            0 <= j <= ms@.len(),
            modes_to_patterns(ms@, tol as int, total_ivs as int, size, 0) == out@
                + modes_to_patterns(ms@, tol as int, total_ivs as int, size, j as int),
            forall|t: int| 0 <= t < out@.len() ==> fuzzy_wf(#[trigger] out@[t]),
        decreases ms@.len() - j,
    {
        let ghost pre = out@;
        let m = ms[j];
        if m.count >= 3 {
            let conf = confidence_ratio(m.count, total_ivs);
            let weight = (100 - tol) * 85;
            proof {
                assert(conf as int * weight as int <= 10_000_000_000) by (nonlinear_arith)
                    requires
                        conf <= 1_000_000,
                        0 <= weight <= 10_000,
                ;
                vstd::arithmetic::div_mod::lemma_div_is_ordered(
                    conf as int * weight as int,
                    10_000_000_000,
                    10000,
                );
            }
            proof {
                assert(conf as int * ((100 - tol as int) * 85) == conf as int * (100 - tol as int)
                    * 85) by (nonlinear_arith);
            }
            let mc64 = (conf * weight) / 10000;
            let p = FuzzyPattern {
                pattern_type: if tol == 20 {
                    PatternKind::RhythmTwentyPct
                } else if tol == 40 {
                    PatternKind::RhythmFortyPct
                } else {
                    PatternKind::RhythmSixtyPct
                },
                size,
                frequency_minutes: Frac::new(m.interval_sum as i128, 60 * (m.count as i128)),
                confidence: conf,
                occurrences: m.count,
                method_confidence: mc64,
            };
            out.push(p);
            assert(p == mode_pattern(ms@[j as int], tol as int, total_ivs as int, size));
            assert(pre + modes_to_patterns(ms@, tol as int, total_ivs as int, size, j as int) =~=
                out@ + modes_to_patterns(ms@, tol as int, total_ivs as int, size, j as int + 1));
        }
        j += 1;
    }
    assert(modes_to_patterns(ms@, tol as int, total_ivs as int, size, ms@.len() as int) =~= Seq::<
        FuzzyPattern,
    >::empty());
    assert(out@ + Seq::<FuzzyPattern>::empty() =~= out@);
    out
}

/// Detects rhythm patterns: the two best greedy interval clusters over
/// the swept tolerances.  Nothing is reported from fewer than three
/// activity ticks, and every reported pattern is backed by at least
/// three occurrences.
pub fn detect_rhythm_patterns(d: &Vec<i64>, ts: &Vec<u64>) -> (r: Vec<FuzzyPattern>)
    requires
        ts@.len() == d@.len() + 1,
        d@.len() <= SEQ_LIMIT,
        forall|t: int| 0 <= t < d@.len() ==> -DELTA_LIMIT <= #[trigger] d@[t] <= DELTA_LIMIT,
        forall|t: int| 0 <= t < ts@.len() ==> #[trigger] ts@[t] <= TS_LIMIT,
    ensures
        r@ == spec_detect_rhythm(d@, ts@),
        forall|j: int| 0 <= j < r@.len() ==> fuzzy_wf(#[trigger] r@[j]),
        r@.len() <= 2,
{
    let a = collect_activity(d);
    proof {
        lemma_activity_wf(d@, 0);
    }
    if a.len() < 3 {
        let empty: Vec<FuzzyPattern> = Vec::new();
        return empty;
    }
    // Inter-arrival intervals of the activity ticks, in seconds.
    let mut iv: Vec<u64> = Vec::new();
    let mut j: usize = 0;
    while j + 1 < a.len()
        invariant
            a@ == activity(d@),
            a@.len() <= d@.len(),
            d@.len() <= SEQ_LIMIT,
            forall|t: int|
                0 <= t < a@.len() ==> (#[trigger] a@[t]).pos < d@.len() && 0 < a@[t].delta
                    <= DELTA_LIMIT,
            ts@.len() == d@.len() + 1,
            forall|t: int| 0 <= t < ts@.len() ==> #[trigger] ts@[t] <= TS_LIMIT,
            0 <= j,
            j + 1 <= a@.len(),
            intervals_of(a@, ts@) == iv@ + intervals_from(a@, ts@, j as int),
            iv@.len() == j,
            forall|t: int| 0 <= t < iv@.len() ==> #[trigger] iv@[t] <= TS_LIMIT,
        decreases a@.len() - j,
    {
        let ghost pre = iv@;
        let t2 = ts[a[j + 1].pos + 1];
        let t1 = ts[a[j].pos + 1];
        iv.push(sat_sub_u64(t2, t1));
        assert(pre + intervals_from(a@, ts@, j as int) =~= iv@ + intervals_from(
            a@,
            ts@,
            j as int + 1,
        ));
        j += 1;
    }
    assert(intervals_from(a@, ts@, a@.len() as int - 1) =~= Seq::<u64>::empty());
    assert(iv@ + Seq::<u64>::empty() =~= iv@);
    assert(iv@ == intervals_of(a@, ts@));
    // Mean delta of all activity ticks: the size every rhythm pattern
    // reports.
    let mut dsum: i128 = 0;
    let mut t: usize = 0;
    while t < a.len()
        invariant
            a@ == activity(d@),
            forall|x: int|
                0 <= x < a@.len() ==> (#[trigger] a@[x]).pos < d@.len() && 0 < a@[x].delta
                    <= DELTA_LIMIT,
            a@.len() <= SEQ_LIMIT,
            0 <= t <= a@.len(),
            activity_delta_sum_from(a@, 0) == dsum + activity_delta_sum_from(a@, t as int),
            0 <= dsum <= t * DELTA_LIMIT,
        decreases a@.len() - t,
    {
        proof {
            assert((t as int) * DELTA_LIMIT + DELTA_LIMIT == ((t as int) + 1) * DELTA_LIMIT)
                by (nonlinear_arith);
            assert(((t as int) + 1) * DELTA_LIMIT <= (SEQ_LIMIT as int) * DELTA_LIMIT)
                by (nonlinear_arith)
                requires
                    (t as int) + 1 <= SEQ_LIMIT as int,
            ;
        }
        dsum += a[t].delta as i128;
        t += 1;
    }
    let size = Frac::new(dsum, a.len() as i128);
    let mut all: Vec<FuzzyPattern> = Vec::new();
    proof {
        lemma_rhythm_fold_wf(iv@, 20, iv@.len() as int);
        lemma_rhythm_fold_wf(iv@, 40, iv@.len() as int);
        lemma_rhythm_fold_wf(iv@, 60, iv@.len() as int);
    }
    let m20 = find_approximate_modes(&iv, 20);
    let mut p20 = modes_to_patterns_exec(&m20, 20, iv.len(), size);
    let m40 = find_approximate_modes(&iv, 40);
    let mut p40 = modes_to_patterns_exec(&m40, 40, iv.len(), size);
    let m60 = find_approximate_modes(&iv, 60);
    let mut p60 = modes_to_patterns_exec(&m60, 60, iv.len(), size);
    all.append(&mut p20);
    all.append(&mut p40);
    all.append(&mut p60);
    assert(all@ =~= rhythm_all_patterns(d@, ts@));
    let ghost allg = all@;
    let top = select_top_k(all, 2);
    proof {
        lemma_select_top_membership(allg, 2);
        lemma_select_top_len(allg, 2);
        assert forall|x: int| 0 <= x < top@.len() implies fuzzy_wf(#[trigger] top@[x]) by {
            let p = top@[x];
            assert(allg.contains(p));
            let w = choose|w: int| 0 <= w < allg.len() && allg[w] == p;
            assert(fuzzy_wf(allg[w]));
        }
    }
    top
}

} // verus!
