//! Velocity pattern detection.
//!
//! Each positive-delta tick gets a velocity: its delta divided by the
//! time since the previous tick, floored at twenty seconds so that a
//! near-zero gap cannot blow the rate up.  Velocities within a relative
//! tolerance of a cluster's seed gather into that cluster, and a cluster
//! of at least three ticks is accepted only if its inter-arrival
//! intervals are regular: their coefficient of variation, against a mean
//! floored at one minute, stays below one half.
use vstd::prelude::*;

use crate::frac::Frac;
use crate::patterns::{
    conf_of, confidence_ratio, fuzzy_wf, lemma_select_top_len, lemma_select_top_membership,
    select_top, select_top_k, FuzzyPattern, PatternKind, SEQ_LIMIT,
};
use crate::snapshot::TS_LIMIT;
use crate::store::DELTA_LIMIT;
use crate::util::{isqrt_u128, sat_sub, sat_sub_u64, spec_max, sqrt_floor};

verus! {

/// One positive-delta tick with its velocity in hundredths of a unit
/// per minute.
#[derive(Clone, Copy, Debug, PartialEq, Eq, Structural)]
pub struct VelocitySample {
    pub pos: usize,
    pub v_centi: i128,
    pub delta: i64,
}

/// One velocity cluster: the seed velocity that keys it, and its
/// members in arrival order.
#[derive(Debug)]
pub struct VelCluster {
    pub rep: i128,
    pub members: Vec<VelocitySample>,
}

/// The velocity of a tick: its delta per minute, in hundredths, over a
/// gap floored at twenty seconds.
pub open spec fn velocity_of(delta: int, secs: int) -> int {
    delta * 6000 / spec_max(secs, 20)
}

/// The velocity samples from position `i` on: every positive-delta tick
/// after the first position.
pub open spec fn velocities_from(d: Seq<i64>, ts: Seq<u64>, i: int) -> Seq<VelocitySample>
    decreases d.len() - i,
{
    if i < 1 || i >= d.len() {
        Seq::empty()
    } else {
        let rest = velocities_from(d, ts, i + 1);
        if d[i] > 0 {
            seq![
                VelocitySample {
                    pos: i as usize,
                    v_centi: velocity_of(
                        d[i] as int,
                        sat_sub(ts[i + 1] as int, ts[i] as int),
                    ) as i128,
                    delta: d[i],
                },
            ] + rest
        } else {
            rest
        }
    }
}

pub open spec fn velocities(d: Seq<i64>, ts: Seq<u64>) -> Seq<VelocitySample> {
    velocities_from(d, ts, 1)
}

/// What holds of every velocity sample of a bounded input.
pub open spec fn sample_wf(v: VelocitySample, dlen: int) -> bool {
    &&& 1 <= v.pos < dlen
    &&& 0 < v.delta <= DELTA_LIMIT
    &&& 0 <= v.v_centi <= DELTA_LIMIT as int * 6000
}

/// Samples of a bounded delta sequence are bounded.
pub proof fn lemma_velocities_wf(d: Seq<i64>, ts: Seq<u64>, i: int)
    requires
        d.len() <= SEQ_LIMIT,
        forall|t: int| 0 <= t < d.len() ==> -DELTA_LIMIT <= #[trigger] d[t] <= DELTA_LIMIT,
    ensures
        forall|j: int|
            0 <= j < velocities_from(d, ts, i).len() ==> sample_wf(
                #[trigger] velocities_from(d, ts, i)[j],
                d.len() as int,
            ),
        velocities_from(d, ts, i).len() <= (if 1 <= i <= d.len() {
            d.len() - i
        } else {
            0int
        }),
    decreases d.len() - i,
{
    if 1 <= i < d.len() {
        lemma_velocities_wf(d, ts, i + 1);
        let rest = velocities_from(d, ts, i + 1);
        if d[i] > 0 {
            assert forall|j: int| 0 <= j < velocities_from(d, ts, i).len() implies sample_wf(
                #[trigger] velocities_from(d, ts, i)[j],
                d.len() as int,
            ) by {
                if j > 0 {
                    assert(velocities_from(d, ts, i)[j] == rest[j - 1]);
                } else {
                    let secs = sat_sub(ts[i + 1] as int, ts[i] as int);
                    assert(-DELTA_LIMIT <= d[i] <= DELTA_LIMIT);
                    vstd::arithmetic::div_mod::lemma_div_pos_is_pos(
                        d[i] * 6000,
                        spec_max(secs, 20),
                    );
                    vstd::arithmetic::div_mod::lemma_div_nonincreasing(
                        d[i] * 6000,
                        spec_max(secs, 20),
                    );
                }
            }
        } else {
            assert forall|j: int| 0 <= j < velocities_from(d, ts, i).len() implies sample_wf(
                #[trigger] velocities_from(d, ts, i)[j],
                d.len() as int,
            ) by {
                assert(velocities_from(d, ts, i)[j] == rest[j]);
            }
        }
    }
}

/// Whether a velocity lies within forty percent of a cluster seed, the
/// seed floored at one hundredth.
pub open spec fn vel_match(rep: int, v: int) -> bool {
    5 * (if v >= rep {
        v - rep
    } else {
        rep - v
    }) <= 2 * spec_max(rep, 1)
}

/// The first cluster from `j` on whose seed the velocity matches, or
/// the cluster count when none does.
pub open spec fn find_cluster(cs: Seq<(int, Seq<VelocitySample>)>, v: int, j: int) -> int
    decreases cs.len() - j,
{
    if j < 0 || j >= cs.len() {
        cs.len() as int
    } else if vel_match(cs[j].0, v) {
        j
    } else {
        find_cluster(cs, v, j + 1)
    }
}

/// A cluster search lands between its start and the cluster count.
pub proof fn lemma_find_cluster_range(cs: Seq<(int, Seq<VelocitySample>)>, v: int, j: int)
    requires
        0 <= j <= cs.len(),
    ensures
        j <= find_cluster(cs, v, j) <= cs.len(),
    decreases cs.len() - j,
{
    if j < cs.len() && !vel_match(cs[j].0, v) {
        lemma_find_cluster_range(cs, v, j + 1);
    }
}

/// Adds one sample to the clustering: the first matching cluster takes
/// it, a new cluster seeded by its velocity otherwise.
pub open spec fn add_sample(
    cs: Seq<(int, Seq<VelocitySample>)>,
    v: VelocitySample,
) -> Seq<(int, Seq<VelocitySample>)> {
    let f = find_cluster(cs, v.v_centi as int, 0);
    if f < cs.len() {
        cs.update(f, (cs[f].0, cs[f].1.push(v)))
    } else {
        cs.push((v.v_centi as int, seq![v]))
    }
}

/// The clustering of the first `i` samples, in arrival order.
pub open spec fn clusters_upto(vels: Seq<VelocitySample>, i: int) -> Seq<
    (int, Seq<VelocitySample>),
>
    decreases i,
{
    if i <= 0 {
        Seq::empty()
    } else {
        add_sample(clusters_upto(vels, i - 1), vels[i - 1])
    }
}

/// Every cluster member is a bounded sample, and no cluster outgrows
/// the sample count.
pub proof fn lemma_clusters_wf(vels: Seq<VelocitySample>, dlen: int, i: int)
    requires
        0 <= i <= vels.len(),
        forall|j: int| 0 <= j < vels.len() ==> sample_wf(#[trigger] vels[j], dlen),
    ensures
        forall|c: int, m: int|
            0 <= c < clusters_upto(vels, i).len() && 0 <= m < clusters_upto(vels, i)[c].1.len()
                ==> sample_wf(#[trigger] clusters_upto(vels, i)[c].1[m], dlen),
        forall|c: int|
            0 <= c < clusters_upto(vels, i).len() ==> (#[trigger] clusters_upto(vels, i)[c]).1.len()
                <= i,
    decreases i,
{
    if i > 0 {
        lemma_clusters_wf(vels, dlen, i - 1);
        let prev = clusters_upto(vels, i - 1);
        let v = vels[i - 1];
        let f = find_cluster(prev, v.v_centi as int, 0);
        lemma_find_cluster_range(prev, v.v_centi as int, 0);
        let cur = clusters_upto(vels, i);
        if f < prev.len() {
            assert(cur == prev.update(f, (prev[f].0, prev[f].1.push(v))));
            assert forall|c: int, m: int|
                0 <= c < cur.len() && 0 <= m < cur[c].1.len() implies sample_wf(
                #[trigger] cur[c].1[m],
                dlen,
            ) by {
                if c == f {
                    if m < prev[f].1.len() {
                        assert(cur[c].1[m] == prev[f].1[m]);
                    } else {
                        assert(cur[c].1[m] == v);
                    }
                } else {
                    assert(cur[c] == prev[c]);
                }
            }
            assert forall|c: int| 0 <= c < cur.len() implies (#[trigger] cur[c]).1.len() <= i by {
                if c != f {
                    assert(cur[c] == prev[c]);
                } else {
                    assert(prev[f].1.len() <= i - 1);
                    assert(cur[c].1.len() == prev[f].1.len() + 1);
                }
            }
        } else {
            assert(cur == prev.push((v.v_centi as int, seq![v])));
            assert forall|c: int, m: int|
                0 <= c < cur.len() && 0 <= m < cur[c].1.len() implies sample_wf(
                #[trigger] cur[c].1[m],
                dlen,
            ) by {
                if c < prev.len() {
                    assert(cur[c] == prev[c]);
                } else {
                    assert(cur[c].1 =~= seq![v]);
                }
            }
            assert forall|c: int| 0 <= c < cur.len() implies (#[trigger] cur[c]).1.len() <= i by {
                if c < prev.len() {
                    assert(cur[c] == prev[c]);
                }
            }
        }
    }
}

/// Sum of the deltas of a member list.
pub open spec fn member_delta_sum(ms: Seq<VelocitySample>, j: int) -> int
    decreases ms.len() - j,
{
    if j < 0 || j >= ms.len() {
        0
    } else {
        ms[j].delta + member_delta_sum(ms, j + 1)
    }
}

/// Sum of the clamped intervals between consecutive members, each
/// measured at the timestamps ending their tick-pairs, in seconds.
pub open spec fn member_interval_sum(ms: Seq<VelocitySample>, ts: Seq<u64>, j: int) -> int
    decreases ms.len() - j,
{
    if j < 1 || j >= ms.len() {
        0
    } else {
        sat_sub(ts[ms[j].pos + 1] as int, ts[ms[j - 1].pos + 1] as int) + member_interval_sum(
            ms,
            ts,
            j + 1,
        )
    }
}

/// Sum of the squared deviations `(n * x - s)^2` of the intervals,
/// where `s` is the interval sum and `n` the interval count, so that
/// the variance of the intervals is this sum over `n` cubed.
pub open spec fn member_sq_dev_sum(ms: Seq<VelocitySample>, ts: Seq<u64>, n: int, s: int, j: int)
    -> int
    decreases ms.len() - j,
{
    if j < 1 || j >= ms.len() {
        0
    } else {
        let x = sat_sub(ts[ms[j].pos + 1] as int, ts[ms[j - 1].pos + 1] as int);
        (n * x - s) * (n * x - s) + member_sq_dev_sum(ms, ts, n, s, j + 1)
    }
}

/// The coefficient of variation of the cluster's intervals, in
/// thousandths, capped at one: the square root of the variance over the
/// squared mean, the mean floored at one minute.
pub open spec fn cv_milli_of(q: int, n: int, m: int) -> int {
    let raw = sqrt_floor(1_000_000 * q / (n * m * m));
    if raw >= 1000 {
        1000
    } else {
        raw
    }
}

/// The ranking weight of a velocity pattern: its confidence scaled by
/// the regularity margin and the detector weight of nine tenths.
pub open spec fn vel_method_conf(conf: int, cv: int) -> int {
    conf * (1000 - cv) * 9 / 10000
}

/// The pattern one accepted cluster yields, when its intervals are
/// regular enough.
pub open spec fn cluster_pattern(
    total: int,
    ms: Seq<VelocitySample>,
    ts: Seq<u64>,
) -> Option<FuzzyPattern> {
    let k = ms.len() as int;
    let n = k - 1;
    let s = member_interval_sum(ms, ts, 1);
    let m = spec_max(s, 60 * n);
    let q = member_sq_dev_sum(ms, ts, n, s, 1);
    let cv = cv_milli_of(q, n, m);
    if cv < 500 {
        Some(
            FuzzyPattern {
                pattern_type: PatternKind::VelocityRegular,
                size: Frac { num: member_delta_sum(ms, 0) as i128, den: k as i128 },
                frequency_minutes: Frac { num: s as i128, den: (60 * n) as i128 },
                confidence: conf_of(k, total) as u64,
                occurrences: k as usize,
                method_confidence: vel_method_conf(conf_of(k, total), cv) as u64,
            },
        )
    } else {
        None
    }
}

/// The candidates of the clusters from index `ci` on: every cluster of
/// at least three members whose intervals are regular.
pub open spec fn clusters_to_patterns(
    cs: Seq<(int, Seq<VelocitySample>)>,
    ts: Seq<u64>,
    total: int,
    ci: int,
) -> Seq<FuzzyPattern>
    decreases cs.len() - ci,
{
    if ci < 0 || ci >= cs.len() {
        Seq::empty()
    } else {
        let rest = clusters_to_patterns(cs, ts, total, ci + 1);
        if cs[ci].1.len() >= 3 {
            match cluster_pattern(total, cs[ci].1, ts) {
                Some(p) => seq![p] + rest,
                None => rest,
            }
        } else {
            rest
        }
    }
}

/// What velocity detection reports: the two best regular clusters, or
/// nothing from fewer than three velocity samples.
pub open spec fn spec_detect_velocity(d: Seq<i64>, ts: Seq<u64>) -> Seq<FuzzyPattern> {
    let vels = velocities(d, ts);
    if vels.len() < 3 {
        Seq::empty()
    } else {
        select_top(
            clusters_to_patterns(
                clusters_upto(vels, vels.len() as int),
                ts,
                vels.len() as int,
                0,
            ),
            2,
        )
    }
}

/// The velocity of one tick, in hundredths of a unit per minute.
fn velocity_centi(delta: i64, secs: u64) -> (r: i128)
    requires
        0 < delta <= DELTA_LIMIT,
        secs <= TS_LIMIT,
    ensures
        r == velocity_of(delta as int, secs as int),
        0 <= r <= DELTA_LIMIT as int * 6000,
{
    let denom: i128 = if secs >= 20 {
        secs as i128
    } else {
        20
    };
    let num = (delta as i128) * 6000;
    proof {
        vstd::arithmetic::div_mod::lemma_div_pos_is_pos(num as int, denom as int);
        vstd::arithmetic::div_mod::lemma_div_nonincreasing(num as int, denom as int);
    }
    num / denom
}

/// Whether a velocity lies within the cluster tolerance of a seed.
fn vel_match_exec(rep: i128, v: i128) -> (r: bool)
    requires
        0 <= rep <= DELTA_LIMIT as int * 6000,
        0 <= v <= DELTA_LIMIT as int * 6000,
    ensures
        r == vel_match(rep as int, v as int),
{
    let diff = if v >= rep {
        v - rep
    } else {
        rep - v
    };
    let floor = if rep >= 1 {
        rep
    } else {
        1
    };
    5 * diff <= 2 * floor
}

/// The spec-level shadow of a cluster vector.
pub open spec fn cluster_views(cs: Seq<VelCluster>) -> Seq<(int, Seq<VelocitySample>)> {
    Seq::new(cs.len(), |i: int| (cs[i].rep as int, cs[i].members@))
}

/// Sums the deltas of a member list.
fn member_delta_sum_exec(ms: &Vec<VelocitySample>, dlen: usize) -> (r: i128)
    requires
        forall|j: int| 0 <= j < ms@.len() ==> sample_wf(#[trigger] ms@[j], dlen as int),
        ms@.len() <= SEQ_LIMIT,
    ensures
        r == member_delta_sum(ms@, 0),
        0 <= r <= ms@.len() * DELTA_LIMIT,
{
    let mut sum: i128 = 0;
    let mut j: usize = 0;
    while j < ms.len()
        invariant
            forall|t: int| 0 <= t < ms@.len() ==> sample_wf(#[trigger] ms@[t], dlen as int),
            ms@.len() <= SEQ_LIMIT,
            0 <= j <= ms@.len(),
            member_delta_sum(ms@, 0) == sum + member_delta_sum(ms@, j as int),
            0 <= sum <= j * DELTA_LIMIT,
        decreases ms@.len() - j,
    {
        proof {
            assert(sample_wf(ms@[j as int], dlen as int));
            assert((j as int) * DELTA_LIMIT + DELTA_LIMIT == ((j as int) + 1) * DELTA_LIMIT)
                by (nonlinear_arith);
            assert(((j as int) + 1) * DELTA_LIMIT <= (SEQ_LIMIT as int) * DELTA_LIMIT)
                by (nonlinear_arith)
                requires
                    (j as int) + 1 <= SEQ_LIMIT as int,
            ;
        }
        sum += ms[j].delta as i128;
        j += 1;
    }
    sum
}

/// Sums the clamped inter-arrival intervals of a member list.
fn member_interval_sum_exec(ms: &Vec<VelocitySample>, ts: &Vec<u64>, dlen: usize) -> (r: u64)
    requires
        forall|j: int| 0 <= j < ms@.len() ==> sample_wf(#[trigger] ms@[j], dlen as int),
        ms@.len() <= SEQ_LIMIT,
        ts@.len() == dlen + 1,
        forall|t: int| 0 <= t < ts@.len() ==> #[trigger] ts@[t] <= TS_LIMIT,
    ensures
        r == member_interval_sum(ms@, ts@, 1),
        0 <= r <= ms@.len() * (TS_LIMIT as int),
{
    let mut sum: u64 = 0;
    if ms.len() == 0 {
        return 0;
    }
    let mut j: usize = 1;
    while j < ms.len()
        invariant
            forall|t: int| 0 <= t < ms@.len() ==> sample_wf(#[trigger] ms@[t], dlen as int),
            ms@.len() <= SEQ_LIMIT,
            ts@.len() == dlen + 1,
            forall|t: int| 0 <= t < ts@.len() ==> #[trigger] ts@[t] <= TS_LIMIT,
            1 <= j <= ms@.len(),
            member_interval_sum(ms@, ts@, 1) == sum + member_interval_sum(ms@, ts@, j as int),
            0 <= sum <= j * (TS_LIMIT as int),
        decreases ms@.len() - j,
    {
        proof {
            assert(sample_wf(ms@[j as int], dlen as int));
            assert(sample_wf(ms@[j as int - 1], dlen as int));
            assert((j as int) * (TS_LIMIT as int) + TS_LIMIT as int == ((j as int) + 1) * (
            TS_LIMIT as int)) by (nonlinear_arith);
            assert(((j as int) + 1) * (TS_LIMIT as int) <= (SEQ_LIMIT as int) * (TS_LIMIT as int))
                by (nonlinear_arith)
                requires
                    (j as int) + 1 <= SEQ_LIMIT as int,
            ;
        }
        let iv = sat_sub_u64(ts[ms[j].pos + 1], ts[ms[j - 1].pos + 1]);
        sum += iv;
        j += 1;
    }
    sum
}

/// Sums the squared deviations of the member intervals around their
/// scaled mean.
fn member_sq_dev_exec(ms: &Vec<VelocitySample>, ts: &Vec<u64>, dlen: usize, n: u64, s: u64) -> (r:
    i128)
    requires
        forall|j: int| 0 <= j < ms@.len() ==> sample_wf(#[trigger] ms@[j], dlen as int),
        ms@.len() <= SEQ_LIMIT,
        ts@.len() == dlen + 1,
        forall|t: int| 0 <= t < ts@.len() ==> #[trigger] ts@[t] <= TS_LIMIT,
        n <= SEQ_LIMIT as int,
        s <= SEQ_LIMIT as int * (TS_LIMIT as int),
    ensures
        r == member_sq_dev_sum(ms@, ts@, n as int, s as int, 1),
        0 <= r <= 0x100_0000_0000_0000_0000_0000_0000,
{
    let mut sum: i128 = 0;
    if ms.len() == 0 {
        return 0;
    }
    let mut j: usize = 1;
    while j < ms.len()
        invariant
            forall|t: int| 0 <= t < ms@.len() ==> sample_wf(#[trigger] ms@[t], dlen as int),
            ms@.len() <= SEQ_LIMIT,
            ts@.len() == dlen + 1,
            forall|t: int| 0 <= t < ts@.len() ==> #[trigger] ts@[t] <= TS_LIMIT,
            n <= SEQ_LIMIT as int,
            s <= SEQ_LIMIT as int * (TS_LIMIT as int),
            1 <= j <= ms@.len(),
            member_sq_dev_sum(ms@, ts@, n as int, s as int, 1) == sum + member_sq_dev_sum(
                ms@,
                ts@,
                n as int,
                s as int,
                j as int,
            ),
            0 <= sum <= j * 0x1_0000_0000_0000_0000_0000_0000,
        decreases ms@.len() - j,
    {
        proof {
            assert(sample_wf(ms@[j as int], dlen as int));
            assert(sample_wf(ms@[j as int - 1], dlen as int));
        }
        let x = sat_sub_u64(ts[ms[j].pos + 1], ts[ms[j - 1].pos + 1]);
        proof {
            assert(0 <= (n as int) * (x as int) <= 0x1_0000_0000_0000) by (nonlinear_arith)
                requires
                    0 <= n as int <= 0x100,
                    0 <= x as int <= 0x100_0000_0000,
            ;
        }
        let nx: i128 = (n as i128) * (x as i128);
        let dev: i128 = nx - (s as i128);
        proof {
            assert(-0x1_0000_0000_0000 <= dev <= 0x1_0000_0000_0000);
            assert(dev * dev <= 0x1_0000_0000_0000_0000_0000_0000) by (nonlinear_arith)
                requires
                    -0x1_0000_0000_0000 <= dev <= 0x1_0000_0000_0000,
            ;
            assert(0 <= dev * dev) by (nonlinear_arith);
            assert((j as int) * 0x1_0000_0000_0000_0000_0000_0000 + 0x1_0000_0000_0000_0000_0000_0000
                == ((j as int) + 1) * 0x1_0000_0000_0000_0000_0000_0000) by (nonlinear_arith);
            assert(((j as int) + 1) * 0x1_0000_0000_0000_0000_0000_0000 <= (SEQ_LIMIT as int)
                * 0x1_0000_0000_0000_0000_0000_0000) by (nonlinear_arith)
                requires
                    (j as int) + 1 <= SEQ_LIMIT as int,
            ;
        }
        let sq: i128 = dev * dev;
        sum += sq;
        j += 1;
    }
    proof {
        assert(sum <= 0x100 * 0x1_0000_0000_0000_0000_0000_0000) by (nonlinear_arith)
            requires
                sum <= ms@.len() * 0x1_0000_0000_0000_0000_0000_0000,
                ms@.len() <= 0x100,
        ;
        assert(0x100 * 0x1_0000_0000_0000_0000_0000_0000 == 0x100_0000_0000_0000_0000_0000_0000int);
    }
    sum
}

/// Detects velocity patterns: clusters of similar velocities with
/// regular inter-arrival intervals.  Nothing is reported from fewer
/// than three velocity samples, and every reported pattern is backed by
/// at least three occurrences.
pub fn detect_velocity_patterns(d: &Vec<i64>, ts: &Vec<u64>) -> (r: Vec<FuzzyPattern>)
    requires
        ts@.len() == d@.len() + 1,
        d@.len() <= SEQ_LIMIT,
        forall|t: int| 0 <= t < d@.len() ==> -DELTA_LIMIT <= #[trigger] d@[t] <= DELTA_LIMIT,
        forall|t: int| 0 <= t < ts@.len() ==> #[trigger] ts@[t] <= TS_LIMIT,
    ensures
        r@ == spec_detect_velocity(d@, ts@),
        forall|j: int| 0 <= j < r@.len() ==> fuzzy_wf(#[trigger] r@[j]),
        r@.len() <= 2,
{
    // Velocity samples of the positive-delta ticks.
    let mut vels: Vec<VelocitySample> = Vec::new();
    if d.len() < 1 {
        proof {
            assert(velocities(d@, ts@) =~= Seq::<VelocitySample>::empty());
        }
        let empty: Vec<FuzzyPattern> = Vec::new();
        return empty;
    }
    let mut i: usize = 1;
    while i < d.len()
        invariant
            ts@.len() == d@.len() + 1,
            d@.len() <= SEQ_LIMIT,
            forall|t: int| 0 <= t < d@.len() ==> -DELTA_LIMIT <= #[trigger] d@[t] <= DELTA_LIMIT,
            forall|t: int| 0 <= t < ts@.len() ==> #[trigger] ts@[t] <= TS_LIMIT,
            1 <= i <= d@.len(),
            velocities(d@, ts@) == vels@ + velocities_from(d@, ts@, i as int),
            vels@.len() < i,
        decreases d@.len() - i,
    {
        let ghost pre = vels@;
        if d[i] > 0 {
            let secs = sat_sub_u64(ts[i + 1], ts[i]);
            let v = velocity_centi(d[i], secs);
            vels.push(VelocitySample { pos: i, v_centi: v, delta: d[i] });
            assert(pre + velocities_from(d@, ts@, i as int) =~= vels@ + velocities_from(
                d@,
                ts@,
                i as int + 1,
            ));
        }
        i += 1;
    }
    assert(velocities_from(d@, ts@, d@.len() as int) =~= Seq::<VelocitySample>::empty());
    assert(vels@ + Seq::<VelocitySample>::empty() =~= vels@);
    assert(vels@ == velocities(d@, ts@));
    proof {
        lemma_velocities_wf(d@, ts@, 1);
    }
    if vels.len() < 3 {
        let empty: Vec<FuzzyPattern> = Vec::new();
        return empty;
    }
    // Greedy clustering: the first matching cluster takes each sample.
    let mut clusters: Vec<VelCluster> = Vec::new();
    let mut i: usize = 0;
    while i < vels.len()
        invariant
            vels@ == velocities(d@, ts@),
            forall|j: int| 0 <= j < vels@.len() ==> sample_wf(#[trigger] vels@[j], d@.len() as int),
            vels@.len() <= SEQ_LIMIT,
            0 <= i <= vels@.len(),
            cluster_views(clusters@) == clusters_upto(vels@, i as int),
            clusters@.len() <= i,
            forall|c: int|
                0 <= c < clusters@.len() ==> 0 <= (#[trigger] clusters@[c]).rep
                    <= DELTA_LIMIT as int * 6000,
        decreases vels@.len() - i,
    {
        let ghost prev = cluster_views(clusters@);
        let v = vels[i];
        assert(sample_wf(vels@[i as int], d@.len() as int));
        let mut f: usize = 0;
        let mut found = false;
        while !found && f < clusters.len()
            invariant
                cluster_views(clusters@) == prev,
                0 <= f <= clusters@.len(),
                0 <= v.v_centi <= DELTA_LIMIT as int * 6000,
                forall|c: int|
                    0 <= c < clusters@.len() ==> 0 <= (#[trigger] clusters@[c]).rep
                        <= DELTA_LIMIT as int * 6000,
                found ==> f < clusters@.len(),
                find_cluster(prev, v.v_centi as int, 0) == find_cluster(
                    prev,
                    v.v_centi as int,
                    f as int,
                ),
                found ==> find_cluster(prev, v.v_centi as int, f as int) == f,
            decreases clusters@.len() - f + (if found {
                0int
            } else {
                1int
            }),
        {
            if vel_match_exec(clusters[f].rep, v.v_centi) {
                found = true;
            } else {
                f += 1;
            }
        }
        assert(f as int == find_cluster(prev, v.v_centi as int, 0));
        if f < clusters.len() {
            let mut cl = clusters.remove(f);
            cl.members.push(v);
            clusters.insert(f, cl);
        } else {
            let mut members: Vec<VelocitySample> = Vec::new();
            members.push(v);
            clusters.push(VelCluster { rep: v.v_centi, members });
        }
        proof {
            assert(cluster_views(clusters@) =~~= add_sample(prev, v));
        }
        i += 1;
    }
    let ghost final_cs = clusters_upto(vels@, vels@.len() as int);
    proof {
        lemma_clusters_wf(vels@, d@.len() as int, vels@.len() as int);
    }
    // Per-cluster statistics: a cluster of at least three ticks is kept
    // when its intervals are regular.
    let mut all: Vec<FuzzyPattern> = Vec::new();
    let mut ci: usize = 0;
    while ci < clusters.len()
        invariant
            vels@ == velocities(d@, ts@),
            ts@.len() == d@.len() + 1,
            d@.len() <= SEQ_LIMIT,
            forall|t: int| 0 <= t < ts@.len() ==> #[trigger] ts@[t] <= TS_LIMIT,
            3 <= vels@.len() <= SEQ_LIMIT,
            vels@.len() <= d@.len(),
            cluster_views(clusters@) == final_cs,
            final_cs == clusters_upto(vels@, vels@.len() as int),
            forall|c: int, m: int|
                0 <= c < final_cs.len() && 0 <= m < final_cs[c].1.len() ==> sample_wf(
                    #[trigger] final_cs[c].1[m],
                    d@.len() as int,
                ),
            forall|c: int|
                0 <= c < final_cs.len() ==> (#[trigger] final_cs[c]).1.len() <= vels@.len(),
            0 <= ci <= clusters@.len(),
            clusters_to_patterns(final_cs, ts@, vels@.len() as int, 0) == all@
                + clusters_to_patterns(final_cs, ts@, vels@.len() as int, ci as int),
            forall|t: int| 0 <= t < all@.len() ==> fuzzy_wf(#[trigger] all@[t]),
        decreases clusters@.len() - ci,
    {
        let ghost pre = all@;
        let k = clusters[ci].members.len();
        assert(final_cs[ci as int].1 == clusters@[ci as int].members@);
        assert(final_cs[ci as int].1.len() <= vels@.len());
        if k >= 3 {
            let n = (k - 1) as u64;
            let s = member_interval_sum_exec(&clusters[ci].members, ts, d.len());
            let m = if s >= 60 * n {
                s
            } else {
                60 * n
            };
            let q = member_sq_dev_exec(&clusters[ci].members, ts, d.len(), n, s);
            let num: u128 = 1_000_000u128 * (q as u128);
            proof {
                assert(m <= 0x1_0000_0000_0000);
                assert((m as int) * (m as int) <= 0x1_0000_0000_0000_0000_0000_0000)
                    by (nonlinear_arith)
                    requires
                        0 <= m as int <= 0x1_0000_0000_0000,
                ;
                assert(0 < (m as int) * (m as int)) by (nonlinear_arith)
                    requires
                        0 < m as int,
                ;
                assert((n as int) * ((m as int) * (m as int)) <= 0x100
                    * 0x1_0000_0000_0000_0000_0000_0000) by (nonlinear_arith)
                    requires
                        0 <= (m as int) * (m as int) <= 0x1_0000_0000_0000_0000_0000_0000,
                        0 < n as int <= 0x100,
                ;
                assert(0 < (n as int) * ((m as int) * (m as int))) by (nonlinear_arith)
                    requires
                        0 < n as int,
                        0 < (m as int) * (m as int),
                ;
                vstd::arithmetic::div_mod::lemma_div_pos_is_pos(
                    num as int,
                    (n as int) * ((m as int) * (m as int)),
                );
                vstd::arithmetic::div_mod::lemma_div_nonincreasing(
                    num as int,
                    (n as int) * ((m as int) * (m as int)),
                );
            }
            let den: u128 = (n as u128) * ((m as u128) * (m as u128));
            let quot = num / den;
            let raw = isqrt_u128(quot);
            let cv: u64 = if raw >= 1000 {
                1000
            } else {
                raw as u64
            };
            proof {
                assert((n as int) * ((m as int) * (m as int)) == (n as int) * (m as int) * (
                m as int)) by (nonlinear_arith);
                assert(cv as int == cv_milli_of(
                    q as int,
                    n as int,
                    spec_max(s as int, 60 * (n as int)),
                ));
            }
            if cv < 500 {
                let dsum = member_delta_sum_exec(&clusters[ci].members, d.len());
                let conf = confidence_ratio(k, vels.len());
                let margin = (1000 - cv) * 9;
                proof {
                    assert(conf as int * ((1000 - cv as int) * 9) == conf as int * (1000
                        - cv as int) * 9) by (nonlinear_arith);
                    assert(conf as int * ((1000 - cv as int) * 9) <= 10_000_000_000)
                        by (nonlinear_arith)
                        requires
                            conf <= 1_000_000,
                            0 <= (1000 - cv as int) * 9 <= 10_000,
                    ;
                    vstd::arithmetic::div_mod::lemma_div_is_ordered(
                        conf as int * ((1000 - cv as int) * 9),
                        10_000_000_000,
                        10000,
                    );
                    vstd::arithmetic::div_mod::lemma_div_pos_is_pos(
                        conf as int * ((1000 - cv as int) * 9),
                        10000,
                    );
                }
                let mc = (conf * margin) / 10000;
                let p = FuzzyPattern {
                    pattern_type: PatternKind::VelocityRegular,
                    size: Frac::new(dsum, k as i128),
                    frequency_minutes: Frac::new(s as i128, 60 * (n as i128)),
                    confidence: conf,
                    occurrences: k,
                    method_confidence: mc,
                };
                all.push(p);
                proof {
                    assert(p == cluster_pattern(
                        vels@.len() as int,
                        final_cs[ci as int].1,
                        ts@,
                    )->0);
                    assert(pre + clusters_to_patterns(final_cs, ts@, vels@.len() as int, ci as int)
                        =~= all@ + clusters_to_patterns(
                        final_cs,
                        ts@,
                        vels@.len() as int,
                        ci as int + 1,
                    ));
                }
            } else {
                proof {
                    assert(cluster_pattern(vels@.len() as int, final_cs[ci as int].1, ts@)
                        is None);
                }
            }
        }
        ci += 1;
    }
    assert(clusters_to_patterns(final_cs, ts@, vels@.len() as int, clusters@.len() as int) =~= Seq::<
        FuzzyPattern,
    >::empty());
    assert(all@ + Seq::<FuzzyPattern>::empty() =~= all@);
    let ghost allg = all@;
    let top = select_top_k(all, 2);
    proof {
        lemma_select_top_membership(allg, 2);
        lemma_select_top_len(allg, 2);
        assert forall|x: int| 0 <= x < top@.len() implies fuzzy_wf(#[trigger] top@[x]) by {
            let p = top@[x];
            assert(allg.contains(p));
            let w = choose|w: int| 0 <= w < allg.len() && allg[w] == p;
            assert(fuzzy_wf(allg[w]));
        }
    }
    top
}

} // verus!
