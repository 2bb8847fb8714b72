//! Exact/ratio clustering of candidate activity periods.
//!
//! A candidate period is a tick-pair in which both the counter delta and
//! the inferred consumed volume are positive.  Periods are grouped by the
//! exact pair of counter delta and rounded delta-to-volume ratio; the
//! largest group of at least three periods wins.  When no exact group is
//! large enough, periods are regrouped by ratio alone, and such a group
//! is accepted only if every member's delta lies within a tenth of the
//! group's mean delta.
use vstd::prelude::*;

use crate::frac::Frac;
use crate::patterns::{ModalPattern, PatternKind, PatternPeriod, SEQ_LIMIT};
use crate::store::{deltas_bounded, timestamps_bounded, volumes_bounded, DELTA_LIMIT};
use crate::snapshot::TS_LIMIT;
use crate::util::{sat_sub, sat_sub_u64, spec_max};

verus! {

/// Candidate periods any detector will accept: positive bounded deltas
/// and volumes, bounded timestamps, and a bounded count.
pub open spec fn periods_wf(ps: Seq<PatternPeriod>) -> bool {
    &&& ps.len() <= SEQ_LIMIT
    &&& forall|i: int|
        0 <= i < ps.len() ==> {
            &&& 0 < (#[trigger] ps[i]).moving_week_delta <= DELTA_LIMIT
            &&& 0 < ps[i].inferred_volume <= DELTA_LIMIT
            &&& ps[i].timestamp <= TS_LIMIT
        }
}

/// The counter delta per unit of inferred volume, scaled by ten
/// thousand and rounded half-up.
pub open spec fn ratio_of(delta: int, inferred: int) -> int {
    (delta * 20000 + inferred) / (2 * inferred)
}

/// The exact clustering key of a period.
pub open spec fn key_of(p: PatternPeriod) -> (int, int) {
    (p.moving_week_delta as int, ratio_of(p.moving_week_delta as int, p.inferred_volume as int))
}

/// The ratio-only clustering key of a period.
pub open spec fn rkey_of(p: PatternPeriod) -> int {
    ratio_of(p.moving_week_delta as int, p.inferred_volume as int)
}

/// How many periods from position `j` on carry the exact key `k`.
pub open spec fn count_key_from(ps: Seq<PatternPeriod>, k: (int, int), j: int) -> int
    decreases ps.len() - j,
{
    if j < 0 || j >= ps.len() {
        0
    } else {
        (if key_of(ps[j]) == k {
            1int
        } else {
            0int
        }) + count_key_from(ps, k, j + 1)
    }
}

/// How many periods from position `j` on carry the ratio key `k`.
pub open spec fn count_rkey_from(ps: Seq<PatternPeriod>, k: int, j: int) -> int
    decreases ps.len() - j,
{
    if j < 0 || j >= ps.len() {
        0
    } else {
        (if rkey_of(ps[j]) == k {
            1int
        } else {
            0int
        }) + count_rkey_from(ps, k, j + 1)
    }
}

/// The periods from position `j` on that carry the exact key `k`, in
/// order.
pub open spec fn filter_key_from(ps: Seq<PatternPeriod>, k: (int, int), j: int) -> Seq<
    PatternPeriod,
>
    decreases ps.len() - j,
{
    if j < 0 || j >= ps.len() {
        Seq::empty()
    } else {
        let rest = filter_key_from(ps, k, j + 1);
        if key_of(ps[j]) == k {
            seq![ps[j]] + rest
        } else {
            rest
        }
    }
}

/// The periods from position `j` on that carry the ratio key `k`.
pub open spec fn filter_rkey_from(ps: Seq<PatternPeriod>, k: int, j: int) -> Seq<PatternPeriod>
    decreases ps.len() - j,
{
    if j < 0 || j >= ps.len() {
        Seq::empty()
    } else {
        let rest = filter_rkey_from(ps, k, j + 1);
        if rkey_of(ps[j]) == k {
            seq![ps[j]] + rest
        } else {
            rest
        }
    }
}

/// Whether position `i` is the first occurrence of its exact key.
pub open spec fn is_first_key(ps: Seq<PatternPeriod>, i: int) -> bool {
    forall|j: int| 0 <= j < i ==> key_of(#[trigger] ps[j]) != key_of(ps[i])
}

/// Whether position `i` is the first occurrence of its ratio key.
pub open spec fn is_first_rkey(ps: Seq<PatternPeriod>, i: int) -> bool {
    forall|j: int| 0 <= j < i ==> rkey_of(#[trigger] ps[j]) != rkey_of(ps[i])
}

/// Sum of the counter deltas of a member list.
pub open spec fn sum_delta_from(ms: Seq<PatternPeriod>, j: int) -> int
    decreases ms.len() - j,
{
    if j < 0 || j >= ms.len() {
        0
    } else {
        ms[j].moving_week_delta + sum_delta_from(ms, j + 1)
    }
}

/// Whether every member's delta lies within `tol` of `avg`.
pub open spec fn deltas_within(ms: Seq<PatternPeriod>, avg: int, tol: int) -> bool {
    forall|j: int|
        0 <= j < ms.len() ==> avg - tol <= (#[trigger] ms[j]).moving_week_delta <= avg + tol
}

/// The representative position of the best exact-key group among the
/// first `i` positions: the first first-occurrence whose group counts at
/// least three periods, later groups replacing it only when strictly
/// larger.
pub open spec fn best_exact_upto(ps: Seq<PatternPeriod>, i: int) -> Option<int>
    decreases i,
{
    if i <= 0 {
        None
    } else {
        let prev = best_exact_upto(ps, i - 1);
        let i0 = i - 1;
        if is_first_key(ps, i0) && count_key_from(ps, key_of(ps[i0]), 0) >= 3 && (prev is None
            || count_key_from(ps, key_of(ps[i0]), 0) > count_key_from(
            ps,
            key_of(ps[prev->0]),
            0,
        )) {
            Some(i0)
        } else {
            prev
        }
    }
}

/// The tolerance around a mean delta that the ratio fallback accepts:
/// a tenth of the mean, at least one.
pub open spec fn tol_of(avg: int) -> int {
    spec_max(avg / 10, 1)
}

/// The mean delta of the ratio group keyed by the period at `i0`.
pub open spec fn rgroup_avg(ps: Seq<PatternPeriod>, i0: int) -> int {
    sum_delta_from(filter_rkey_from(ps, rkey_of(ps[i0]), 0), 0) / count_rkey_from(
        ps,
        rkey_of(ps[i0]),
        0,
    )
}

/// Whether the ratio group keyed by the period at `i0` is accepted: at
/// least three members, all deltas within tolerance of the mean.
pub open spec fn rgroup_ok(ps: Seq<PatternPeriod>, i0: int) -> bool {
    let k = rkey_of(ps[i0]);
    let cnt = count_rkey_from(ps, k, 0);
    cnt >= 3 && deltas_within(filter_rkey_from(ps, k, 0), rgroup_avg(ps, i0), tol_of(rgroup_avg(ps, i0)))
}

/// The representative position of the best accepted ratio group among
/// the first `i` positions.
pub open spec fn best_ratio_upto(ps: Seq<PatternPeriod>, i: int) -> Option<int>
    decreases i,
{
    if i <= 0 {
        None
    } else {
        let prev = best_ratio_upto(ps, i - 1);
        let i0 = i - 1;
        if is_first_rkey(ps, i0) && rgroup_ok(ps, i0) && (prev is None || count_rkey_from(
            ps,
            rkey_of(ps[i0]),
            0,
        ) > count_rkey_from(ps, rkey_of(ps[prev->0]), 0)) {
            Some(i0)
        } else {
            prev
        }
    }
}

/// Sum of the intervals between consecutive member timestamps, each
/// clamped at zero, in seconds.
pub open spec fn interval_sum_from(ms: Seq<PatternPeriod>, j: int) -> int
    decreases ms.len() - j,
{
    if j < 1 || j >= ms.len() {
        0
    } else {
        sat_sub(ms[j].timestamp as int, ms[j - 1].timestamp as int) + interval_sum_from(ms, j + 1)
    }
}

/// The reported pattern built from an accepted group.
pub open spec fn pattern_of_members(
    total: int,
    ms: Seq<PatternPeriod>,
    size: int,
    ratio: int,
) -> ModalPattern {
    ModalPattern {
        size: Frac { num: size as i128, den: 1 },
        ratio: Frac { num: ratio as i128, den: 10000 },
        frequency_minutes: Frac {
            num: interval_sum_from(ms, 1) as i128,
            den: (60 * (ms.len() - 1)) as i128,
        },
        occurrence_count: ms.len() as usize,
        confidence: ((ms.len() * 1_000_000) as int / total) as u64,
        detection_method: PatternKind::LegacyExactClustering,
    }
}

/// What exact/ratio clustering reports for a candidate period list.
pub open spec fn legacy_pattern(ps: Seq<PatternPeriod>) -> Option<ModalPattern> {
    if ps.len() < 3 {
        None
    } else if best_exact_upto(ps, ps.len() as int) is Some {
        let i0 = best_exact_upto(ps, ps.len() as int)->0;
        let ms = filter_key_from(ps, key_of(ps[i0]), 0);
        Some(
            pattern_of_members(
                ps.len() as int,
                ms,
                ps[i0].moving_week_delta as int,
                rkey_of(ps[i0]),
            ),
        )
    } else if best_ratio_upto(ps, ps.len() as int) is Some {
        let i0 = best_ratio_upto(ps, ps.len() as int)->0;
        let ms = filter_rkey_from(ps, rkey_of(ps[i0]), 0);
        Some(pattern_of_members(ps.len() as int, ms, rgroup_avg(ps, i0), rkey_of(ps[i0])))
    } else {
        None
    }
}

/// A detector input: aligned, bounded sequences of per-tick deltas,
/// inferred volumes and snapshot timestamps, the timestamps one entry
/// longer so that the delta at `i` ends at the timestamp at `i + 1`.
pub open spec fn detector_input_wf(d: Seq<i64>, inf: Seq<i64>, ts: Seq<u64>) -> bool {
    &&& inf.len() == d.len()
    &&& ts.len() == d.len() + 1
    &&& d.len() <= SEQ_LIMIT
    &&& deltas_bounded(d)
    &&& volumes_bounded(inf)
    &&& timestamps_bounded(ts)
}

/// The candidate periods from position `i` on: tick-pairs whose counter
/// delta and inferred volume are both positive.
pub open spec fn pattern_periods_from(
    d: Seq<i64>,
    inf: Seq<i64>,
    ts: Seq<u64>,
    i: int,
) -> Seq<PatternPeriod>
    decreases d.len() - i,
{
    if i < 0 || i >= d.len() {
        Seq::empty()
    } else {
        let rest = pattern_periods_from(d, inf, ts, i + 1);
        if d[i] > 0 && inf[i] > 0 {
            seq![
                PatternPeriod {
                    position: i as usize,
                    moving_week_delta: d[i],
                    inferred_volume: inf[i],
                    timestamp: ts[i + 1],
                },
            ] + rest
        } else {
            rest
        }
    }
}

/// All candidate periods of a detector input.
pub open spec fn pattern_periods(d: Seq<i64>, inf: Seq<i64>, ts: Seq<u64>) -> Seq<PatternPeriod> {
    pattern_periods_from(d, inf, ts, 0)
}

/// Collects the candidate activity periods: every tick-pair in which
/// both the counter delta and the inferred consumed volume are positive,
/// with the timestamp that ends the pair.
pub fn find_patterns_from_deltas(d: &Vec<i64>, inf: &Vec<i64>, ts: &Vec<u64>) -> (r: Vec<
    PatternPeriod,
>)
    requires
        detector_input_wf(d@, inf@, ts@),
    ensures
        r@ == pattern_periods(d@, inf@, ts@),
        periods_wf(r@),
        r@.len() <= d@.len(),
{
    let mut out: Vec<PatternPeriod> = Vec::new();
    let mut i: usize = 0;
    while i < d.len()
        invariant
            detector_input_wf(d@, inf@, ts@),
            0 <= i <= d@.len(),
            pattern_periods(d@, inf@, ts@) == out@ + pattern_periods_from(d@, inf@, ts@, i as int),
            periods_wf(out@),
            out@.len() <= i,
        decreases d@.len() - i,
    {
        let ghost pre = out@;
        if d[i] > 0 && inf[i] > 0 {
            proof {
                assert(-DELTA_LIMIT <= d@[i as int] <= DELTA_LIMIT);
                assert(0 <= inf@[i as int] <= DELTA_LIMIT);
                assert(ts@[i as int + 1] <= TS_LIMIT);
            }
            out.push(
                PatternPeriod {
                    position: i,
                    moving_week_delta: d[i],
                    inferred_volume: inf[i],
                    timestamp: ts[i + 1],
                },
            );
            assert(pre + pattern_periods_from(d@, inf@, ts@, i as int) =~= out@
                + pattern_periods_from(d@, inf@, ts@, i as int + 1));
        }
        i += 1;
    }
    assert(pattern_periods_from(d@, inf@, ts@, d@.len() as int) =~= Seq::<PatternPeriod>::empty());
    assert(out@ + Seq::<PatternPeriod>::empty() =~= out@);
    out
}

/// An exact-cluster winner lies in range and counts at least three.
pub proof fn lemma_best_exact_props(ps: Seq<PatternPeriod>, i: int)
    ensures
        best_exact_upto(ps, i) matches Some(b) ==> 0 <= b < i && count_key_from(
            ps,
            key_of(ps[b]),
            0,
        ) >= 3,
    decreases i,
{
    if i > 0 {
        lemma_best_exact_props(ps, i - 1);
    }
}

/// A ratio-cluster winner lies in range and its group is accepted.
pub proof fn lemma_best_ratio_props(ps: Seq<PatternPeriod>, i: int)
    ensures
        best_ratio_upto(ps, i) matches Some(b) ==> 0 <= b < i && rgroup_ok(ps, b),
    decreases i,
{
    if i > 0 {
        lemma_best_ratio_props(ps, i - 1);
    }
}

/// The rounded ratio key of one period.
fn ratio_key(delta: i64, inferred: i64) -> (r: i128)
    requires
        0 < delta <= DELTA_LIMIT,
        0 < inferred <= DELTA_LIMIT,
    ensures
        r == ratio_of(delta as int, inferred as int),
{
    ((delta as i128) * 20000 + (inferred as i128)) / (2 * (inferred as i128))
}

/// Whether the periods at `a` and `b` carry the same exact key.
fn same_key(ps: &Vec<PatternPeriod>, a: usize, b: usize) -> (r: bool)
    requires
        periods_wf(ps@),
        a < ps@.len(),
        b < ps@.len(),
    ensures
        r == (key_of(ps@[a as int]) == key_of(ps@[b as int])),
{
    let pa = ps[a];
    let pb = ps[b];
    assert(ps@[a as int] == pa && ps@[b as int] == pb);
    pa.moving_week_delta == pb.moving_week_delta && ratio_key(pa.moving_week_delta, pa.inferred_volume)
        == ratio_key(pb.moving_week_delta, pb.inferred_volume)
}

/// Whether the periods at `a` and `b` carry the same ratio key.
fn same_rkey(ps: &Vec<PatternPeriod>, a: usize, b: usize) -> (r: bool)
    requires
        periods_wf(ps@),
        a < ps@.len(),
        b < ps@.len(),
    ensures
        r == (rkey_of(ps@[a as int]) == rkey_of(ps@[b as int])),
{
    let pa = ps[a];
    let pb = ps[b];
    ratio_key(pa.moving_week_delta, pa.inferred_volume) == ratio_key(
        pb.moving_week_delta,
        pb.inferred_volume,
    )
}

/// How many periods carry the same exact key as the one at `i0`.
fn count_same_key(ps: &Vec<PatternPeriod>, i0: usize) -> (r: usize)
    requires
        periods_wf(ps@),
        i0 < ps@.len(),
    ensures
        r == count_key_from(ps@, key_of(ps@[i0 as int]), 0),
        r <= ps@.len(),
{
    let ghost k = key_of(ps@[i0 as int]);
    let mut cnt: usize = 0;
    let mut j: usize = 0;
    while j < ps.len()
        invariant
            periods_wf(ps@),
            i0 < ps@.len(),
            0 <= j <= ps@.len(),
            cnt <= j,
            count_key_from(ps@, k, 0) == cnt + count_key_from(ps@, k, j as int),
            k == key_of(ps@[i0 as int]),
        decreases ps@.len() - j,
    {
        if same_key(ps, j, i0) {
            cnt += 1;
        }
        j += 1;
    }
    cnt
}

/// How many periods carry the same ratio key as the one at `i0`.
fn count_same_rkey(ps: &Vec<PatternPeriod>, i0: usize) -> (r: usize)
    requires
        periods_wf(ps@),
        i0 < ps@.len(),
    ensures
        r == count_rkey_from(ps@, rkey_of(ps@[i0 as int]), 0),
        r <= ps@.len(),
{
    let ghost k = rkey_of(ps@[i0 as int]);
    let mut cnt: usize = 0;
    let mut j: usize = 0;
    while j < ps.len()
        invariant
            periods_wf(ps@),
            i0 < ps@.len(),
            0 <= j <= ps@.len(),
            cnt <= j,
            count_rkey_from(ps@, k, 0) == cnt + count_rkey_from(ps@, k, j as int),
            k == rkey_of(ps@[i0 as int]),
        decreases ps@.len() - j,
    {
        if same_rkey(ps, j, i0) {
            cnt += 1;
        }
        j += 1;
    }
    cnt
}

/// Whether position `i0` is the first occurrence of its exact key.
fn first_of_key(ps: &Vec<PatternPeriod>, i0: usize) -> (r: bool)
    requires
        periods_wf(ps@),
        i0 < ps@.len(),
    ensures
        r == is_first_key(ps@, i0 as int),
{
    let mut j: usize = 0;
    while j < i0
        invariant
            periods_wf(ps@),
            i0 < ps@.len(),
            0 <= j <= i0,
            forall|t: int| 0 <= t < j ==> key_of(#[trigger] ps@[t]) != key_of(ps@[i0 as int]),
        decreases i0 - j,
    {
        if same_key(ps, j, i0) {
            return false;
        }
        j += 1;
    }
    true
}

/// Whether position `i0` is the first occurrence of its ratio key.
fn first_of_rkey(ps: &Vec<PatternPeriod>, i0: usize) -> (r: bool)
    requires
        periods_wf(ps@),
        i0 < ps@.len(),
    ensures
        r == is_first_rkey(ps@, i0 as int),
{
    let mut j: usize = 0;
    while j < i0
        invariant
            periods_wf(ps@),
            i0 < ps@.len(),
            0 <= j <= i0,
            forall|t: int| 0 <= t < j ==> rkey_of(#[trigger] ps@[t]) != rkey_of(ps@[i0 as int]),
        decreases i0 - j,
    {
        if same_rkey(ps, j, i0) {
            return false;
        }
        j += 1;
    }
    true
}

/// Collects the periods sharing the exact key of the one at `i0`.
fn collect_key_members(ps: &Vec<PatternPeriod>, i0: usize) -> (r: Vec<PatternPeriod>)
    requires
        periods_wf(ps@),
        i0 < ps@.len(),
    ensures
        r@ == filter_key_from(ps@, key_of(ps@[i0 as int]), 0),
{
    let ghost k = key_of(ps@[i0 as int]);
    let mut out: Vec<PatternPeriod> = Vec::new();
    let mut j: usize = 0;
    while j < ps.len()
        invariant
            periods_wf(ps@),
            i0 < ps@.len(),
            0 <= j <= ps@.len(),
            filter_key_from(ps@, k, 0) == out@ + filter_key_from(ps@, k, j as int),
            k == key_of(ps@[i0 as int]),
        decreases ps@.len() - j,
    {
        let ghost pre = out@;
        if same_key(ps, j, i0) {
            out.push(ps[j]);
            assert(pre + filter_key_from(ps@, k, j as int) =~= out@ + filter_key_from(
                ps@,
                k,
                j as int + 1,
            ));
        }
        j += 1;
    }
    assert(filter_key_from(ps@, k, ps@.len() as int) =~= Seq::<PatternPeriod>::empty());
    assert(out@ + Seq::<PatternPeriod>::empty() =~= out@);
    out
}

/// Collects the periods sharing the ratio key of the one at `i0`.
fn collect_rkey_members(ps: &Vec<PatternPeriod>, i0: usize) -> (r: Vec<PatternPeriod>)
    requires
        periods_wf(ps@),
        i0 < ps@.len(),
    ensures
        r@ == filter_rkey_from(ps@, rkey_of(ps@[i0 as int]), 0),
{
    let ghost k = rkey_of(ps@[i0 as int]);
    let mut out: Vec<PatternPeriod> = Vec::new();
    let mut j: usize = 0;
    while j < ps.len()
        invariant
            periods_wf(ps@),
            i0 < ps@.len(),
            0 <= j <= ps@.len(),
            filter_rkey_from(ps@, k, 0) == out@ + filter_rkey_from(ps@, k, j as int),
            k == rkey_of(ps@[i0 as int]),
        decreases ps@.len() - j,
    {
        let ghost pre = out@;
        if same_rkey(ps, j, i0) {
            out.push(ps[j]);
            assert(pre + filter_rkey_from(ps@, k, j as int) =~= out@ + filter_rkey_from(
                ps@,
                k,
                j as int + 1,
            ));
        }
        j += 1;
    }
    assert(filter_rkey_from(ps@, k, ps@.len() as int) =~= Seq::<PatternPeriod>::empty());
    assert(out@ + Seq::<PatternPeriod>::empty() =~= out@);
    out
}

/// A filtered member list keeps the bounds of its source.
pub proof fn lemma_filter_key_wf(ps: Seq<PatternPeriod>, k: (int, int), j: int)
    requires
        periods_wf(ps),
    ensures
        filter_key_from(ps, k, j).len() <= ps.len() - (if j < 0 {
            0int
        } else if j > ps.len() {
            ps.len() as int
        } else {
            j
        }),
        periods_wf(filter_key_from(ps, k, j)),
    decreases ps.len() - j,
{
    if 0 <= j < ps.len() {
        lemma_filter_key_wf(ps, k, j + 1);
    }
}

/// A ratio-filtered member list keeps the bounds of its source.
pub proof fn lemma_filter_rkey_wf(ps: Seq<PatternPeriod>, k: int, j: int)
    requires
        periods_wf(ps),
    ensures
        filter_rkey_from(ps, k, j).len() <= ps.len() - (if j < 0 {
            0int
        } else if j > ps.len() {
            ps.len() as int
        } else {
            j
        }),
        periods_wf(filter_rkey_from(ps, k, j)),
    decreases ps.len() - j,
{
    if 0 <= j < ps.len() {
        lemma_filter_rkey_wf(ps, k, j + 1);
    }
}

/// Sums the counter deltas of a member list.
fn sum_deltas(ms: &Vec<PatternPeriod>) -> (r: i128)
    requires
        periods_wf(ms@),
    ensures
        r == sum_delta_from(ms@, 0),
        0 <= r <= ms@.len() * DELTA_LIMIT,
{
    let mut sum: i128 = 0;
    let mut j: usize = 0;
    while j < ms.len()
        invariant
            periods_wf(ms@),
            0 <= j <= ms@.len(),
            sum_delta_from(ms@, 0) == sum + sum_delta_from(ms@, j as int),
            0 <= sum <= j * DELTA_LIMIT,
        decreases ms@.len() - j,
    {
        proof {
            assert((j as int) * DELTA_LIMIT + DELTA_LIMIT == ((j as int) + 1) * DELTA_LIMIT)
                by (nonlinear_arith);
            assert(((j as int) + 1) * DELTA_LIMIT <= (ms@.len() as int) * DELTA_LIMIT)
                by (nonlinear_arith)
                requires
                    (j as int) + 1 <= ms@.len() as int,
            ;
            assert((ms@.len() as int) * DELTA_LIMIT <= SEQ_LIMIT as int * DELTA_LIMIT)
                by (nonlinear_arith)
                requires
                    ms@.len() <= SEQ_LIMIT as int,
            ;
        }
        sum += ms[j].moving_week_delta as i128;
        j += 1;
    }
    sum
}

/// Sums the clamped intervals between consecutive member timestamps.
fn sum_intervals(ms: &Vec<PatternPeriod>) -> (r: u64)
    requires
        periods_wf(ms@),
    ensures
        r == interval_sum_from(ms@, 1),
        r <= ms@.len() * (TS_LIMIT as int),
{
    let mut sum: u64 = 0;
    if ms.len() == 0 {
        return 0;
    }
    let mut j: usize = 1;
    while j < ms.len()
        invariant
            periods_wf(ms@),
            1 <= j <= ms@.len() || (j == 1 && ms@.len() == 0),
            interval_sum_from(ms@, 1) == sum + interval_sum_from(ms@, j as int),
            0 <= sum <= j * (TS_LIMIT as int),
        decreases ms@.len() - j,
    {
        proof {
            assert((j as int) * (TS_LIMIT as int) + (TS_LIMIT as int) == ((j as int) + 1) * (
            TS_LIMIT as int)) by (nonlinear_arith);
            assert(((j as int) + 1) * (TS_LIMIT as int) <= SEQ_LIMIT as int * (TS_LIMIT as int))
                by (nonlinear_arith)
                requires
                    (j as int) + 1 <= SEQ_LIMIT as int,
            ;
        }
        let iv = sat_sub_u64(ms[j].timestamp, ms[j - 1].timestamp);
        sum += iv;
        j += 1;
    }
    sum
}

/// Whether every member's delta lies within tolerance of `avg`.
fn check_within(ms: &Vec<PatternPeriod>, avg: i128, tol: i128) -> (r: bool)
    requires
        periods_wf(ms@),
        0 <= avg <= 0x1_0000_0000_0000_0000_0000,
        0 <= tol <= 0x1_0000_0000_0000_0000_0000,
    ensures
        r == deltas_within(ms@, avg as int, tol as int),
{
    let mut j: usize = 0;
    while j < ms.len()
        invariant
            periods_wf(ms@),
            0 <= j <= ms@.len(),
            0 <= avg <= 0x1_0000_0000_0000_0000_0000,
            0 <= tol <= 0x1_0000_0000_0000_0000_0000,
            forall|t: int|
                0 <= t < j ==> avg - tol <= (#[trigger] ms@[t]).moving_week_delta <= avg + tol,
        decreases ms@.len() - j,
    {
        proof {
            assert(ms@[j as int].moving_week_delta <= DELTA_LIMIT && 0 < ms@[
                j as int
            ].moving_week_delta);
        }
        let d = ms[j].moving_week_delta as i128;
        if !(avg - tol <= d && d <= avg + tol) {
            assert(!deltas_within(ms@, avg as int, tol as int));
            return false;
        }
        j += 1;
    }
    true
}

/// Builds the reported pattern of an accepted member list.
fn build_pattern(total: usize, ms: &Vec<PatternPeriod>, size: i128, ratio: i128) -> (r:
    ModalPattern)
    requires
        periods_wf(ms@),
        3 <= ms@.len(),
        ms@.len() <= total,
        total <= SEQ_LIMIT,
    ensures
        r == pattern_of_members(total as int, ms@, size as int, ratio as int),
        r.confidence <= 1_000_000,
        r.occurrence_count >= 3,
        r.frequency_minutes.wf(),
        r.size.wf(),
        r.ratio.wf(),
{
    let secs = sum_intervals(ms);
    let freq = Frac::new(secs as i128, 60 * ((ms.len() - 1) as i128));
    let conf_num: usize = ms.len() * 1_000_000;
    proof {
        vstd::arithmetic::div_mod::lemma_div_is_ordered(
            conf_num as int,
            total as int * 1_000_000,
            total as int,
        );
        vstd::arithmetic::div_mod::lemma_div_multiples_vanish(1_000_000, total as int);
    }
    let confidence = (conf_num / total) as u64;
    ModalPattern {
        size: Frac::new(size, 1),
        ratio: Frac::new(ratio, 10000),
        frequency_minutes: freq,
        occurrence_count: ms.len(),
        confidence,
        detection_method: PatternKind::LegacyExactClustering,
    }
}

/// Detects the legacy exact/ratio cluster pattern among candidate
/// periods.  Reports nothing from fewer than three qualifying periods;
/// any reported pattern is backed by at least three occurrences.
pub fn detect_modal_pattern_legacy(ps: &Vec<PatternPeriod>) -> (r: Option<ModalPattern>)
    requires
        periods_wf(ps@),
    ensures
        r == legacy_pattern(ps@),
        r matches Some(p) ==> p.occurrence_count >= 3 && p.confidence <= 1_000_000
            && p.size.wf() && p.ratio.wf() && p.frequency_minutes.wf(),
{
    if ps.len() < 3 {
        return None;
    }
    // Exact (delta, ratio) clustering: first occurrences carry their
    // whole group; a strictly larger group replaces the chosen one.
    let mut best: Option<usize> = None;
    let mut i: usize = 0;
    while i < ps.len()
        invariant
            periods_wf(ps@),
            3 <= ps@.len(),
            0 <= i <= ps@.len(),
            best matches Some(b) ==> b < ps@.len(),
            (match best {
                Some(b) => best_exact_upto(ps@, i as int) == Some(b as int),
                None => best_exact_upto(ps@, i as int) is None,
            }),
        decreases ps@.len() - i,
    {
        if first_of_key(ps, i) {
            let cnt = count_same_key(ps, i);
            if cnt >= 3 {
                let take = match best {
                    None => true,
                    Some(b) => cnt > count_same_key(ps, b),
                };
                if take {
                    best = Some(i);
                }
            }
        }
        i += 1;
    }
    if let Some(b) = best {
        let members = collect_key_members(ps, b);
        proof {
            lemma_best_exact_props(ps@, ps@.len() as int);
            lemma_filter_key_wf(ps@, key_of(ps@[b as int]), 0);
            lemma_filter_key_count(ps@, key_of(ps@[b as int]), 0);
        }
        let pb = ps[b];
        let ratio = ratio_key(pb.moving_week_delta, pb.inferred_volume);
        let pat = build_pattern(ps.len(), &members, pb.moving_week_delta as i128, ratio);
        return Some(pat);
    }
    // Ratio-only fallback: a group is accepted when every delta lies
    // within a tenth of the group's mean.
    let mut rbest: Option<usize> = None;
    let mut i: usize = 0;
    while i < ps.len()
        invariant
            periods_wf(ps@),
            3 <= ps@.len(),
            0 <= i <= ps@.len(),
            best_exact_upto(ps@, ps@.len() as int) is None,
            rbest matches Some(b) ==> b < ps@.len(),
            (match rbest {
                Some(b) => best_ratio_upto(ps@, i as int) == Some(b as int),
                None => best_ratio_upto(ps@, i as int) is None,
            }),
        decreases ps@.len() - i,
    {
        if first_of_rkey(ps, i) {
            let cnt = count_same_rkey(ps, i);
            if cnt >= 3 {
                let members = collect_rkey_members(ps, i);
                proof {
                    lemma_filter_rkey_wf(ps@, rkey_of(ps@[i as int]), 0);
                    lemma_filter_rkey_count(ps@, rkey_of(ps@[i as int]), 0);
                }
                let sum = sum_deltas(&members);
                let avg = sum / (cnt as i128);
                let tol = if avg / 10 >= 1 {
                    avg / 10
                } else {
                    1
                };
                assert(tol == tol_of(avg as int));
                if check_within(&members, avg, tol) {
                    let take = match rbest {
                        None => true,
                        Some(b) => cnt > count_same_rkey(ps, b),
                    };
                    if take {
                        rbest = Some(i);
                    }
                    assert(rgroup_ok(ps@, i as int));
                } else {
                    assert(!rgroup_ok(ps@, i as int));
                }
            }
        }
        i += 1;
    }
    if let Some(b) = rbest {
        let members = collect_rkey_members(ps, b);
        proof {
            lemma_best_ratio_props(ps@, ps@.len() as int);
            lemma_filter_rkey_wf(ps@, rkey_of(ps@[b as int]), 0);
            lemma_filter_rkey_count(ps@, rkey_of(ps@[b as int]), 0);
        }
        let cnt = count_same_rkey(ps, b);
        let sum = sum_deltas(&members);
        let avg = sum / (cnt as i128);
        let pb = ps[b];
        let ratio = ratio_key(pb.moving_week_delta, pb.inferred_volume);
        let pat = build_pattern(ps.len(), &members, avg, ratio);
        return Some(pat);
    }
    None
}

/// A filtered member list is exactly as long as its count.
pub proof fn lemma_filter_key_count(ps: Seq<PatternPeriod>, k: (int, int), j: int)
    ensures
        filter_key_from(ps, k, j).len() == count_key_from(ps, k, j),
    decreases ps.len() - j,
{
    if 0 <= j < ps.len() {
        lemma_filter_key_count(ps, k, j + 1);
    }
}

/// A ratio-filtered member list is exactly as long as its count.
pub proof fn lemma_filter_rkey_count(ps: Seq<PatternPeriod>, k: int, j: int)
    ensures
        filter_rkey_from(ps, k, j).len() == count_rkey_from(ps, k, j),
    decreases ps.len() - j,
{
    if 0 <= j < ps.len() {
        lemma_filter_rkey_count(ps, k, j + 1);
    }
}

} // verus!
