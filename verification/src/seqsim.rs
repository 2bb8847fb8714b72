//! Subsequence-similarity pattern detection.
//!
//! For every window length from three to fifteen, every window of the
//! delta sequence is compared against every later window of the same
//! length.  Two windows are similar when their mean per-element
//! similarity reaches six tenths: matching zeroes score fully, a zero
//! against a non-zero scores a tenth, and two non-zeroes score by their
//! relative difference.  A window similar to at least two later windows
//! is a pattern candidate.
use vstd::prelude::*;

use crate::frac::Frac;
use crate::patterns::{
    fuzzy_wf, lemma_select_top_len, lemma_select_top_membership, select_top, select_top_k,
    FuzzyPattern, PatternKind, SEQ_LIMIT,
};
use crate::snapshot::TS_LIMIT;
use crate::store::DELTA_LIMIT;
use crate::util::{sat_sub, sat_sub_u64, spec_max};

verus! {

/// Magnitude of an integer.
pub open spec fn spec_abs(a: int) -> int {
    if a >= 0 {
        a
    } else {
        -a
    }
}

/// The similarity of one element pair, in thousandths: matching zeroes
/// score fully, a zero against a non-zero scores a tenth, two
/// non-zeroes score one minus their relative difference.
pub open spec fn pair_sim_milli(a: int, b: int) -> int {
    if a == 0 && b == 0 {
        1000
    } else if a == 0 || b == 0 {
        100
    } else {
        let m = spec_max(spec_abs(a), spec_abs(b));
        let penalty = 1000 * spec_abs(a - b) / m;
        1000 - (if penalty >= 1000 {
            1000int
        } else {
            penalty
        })
    }
}

/// Sum of the pair similarities of two windows, from offset `k` on.
pub open spec fn window_score_from(d: Seq<i64>, s1: int, s2: int, len: int, k: int) -> int
    decreases len - k,
{
    if k < 0 || k >= len {
        0
    } else {
        pair_sim_milli(d[s1 + k] as int, d[s2 + k] as int) + window_score_from(d, s1, s2, len, k + 1)
    }
}

/// Whether the mean pair similarity of the two windows reaches six
/// tenths.
pub open spec fn is_similar(d: Seq<i64>, s1: int, s2: int, len: int) -> bool {
    window_score_from(d, s1, s2, len, 0) >= 600 * len
}

/// Whether the window starting at `start` is all zeroes.
pub open spec fn window_all_zero(d: Seq<i64>, start: int, len: int) -> bool {
    forall|t: int| 0 <= t < len ==> #[trigger] d[start + t] == 0
}

/// How many windows from `s` on are similar to the one at `start`.
pub open spec fn matches_from(d: Seq<i64>, start: int, pl: int, s: int) -> int
    decreases d.len() - pl + 1 - s,
{
    if s < 0 || s > d.len() - pl {
        0
    } else {
        (if is_similar(d, start, s, pl) {
            1int
        } else {
            0int
        }) + matches_from(d, start, pl, s + 1)
    }
}

/// The last matching window start below `s`, or `start` itself when
/// none matches.
pub open spec fn last_match_upto(d: Seq<i64>, start: int, pl: int, s: int) -> int
    decreases s - start - pl,
{
    if s <= start + pl {
        start
    } else if is_similar(d, start, s - 1, pl) {
        s - 1
    } else {
        last_match_upto(d, start, pl, s - 1)
    }
}

/// Sum of the positive elements of the window at `start`, from offset
/// `k` on.
pub open spec fn pos_sum_from(d: Seq<i64>, start: int, pl: int, k: int) -> int
    decreases pl - k,
{
    if k < 0 || k >= pl {
        0
    } else {
        (if d[start + k] > 0 {
            d[start + k] as int
        } else {
            0int
        }) + pos_sum_from(d, start, pl, k + 1)
    }
}

/// How many elements of the window at `start` are positive.
pub open spec fn pos_count_from(d: Seq<i64>, start: int, pl: int, k: int) -> int
    decreases pl - k,
{
    if k < 0 || k >= pl {
        0
    } else {
        (if d[start + k] > 0 {
            1int
        } else {
            0int
        }) + pos_count_from(d, start, pl, k + 1)
    }
}

/// The candidate the window at `start` yields, when it is not all
/// zeroes and at least two later windows are similar to it.
pub open spec fn pattern_for(d: Seq<i64>, ts: Seq<u64>, start: int, pl: int) -> Option<
    FuzzyPattern,
> {
    if window_all_zero(d, start, pl) {
        None
    } else {
        let cnt = matches_from(d, start, pl, start + pl);
        if cnt >= 2 {
            let last = last_match_upto(d, start, pl, d.len() - pl + 1);
            let secs = sat_sub(ts[last + 1] as int, ts[start + 1] as int);
            let denom = spec_max(d.len() as int / pl, 1);
            let conf_raw = (cnt + 1) * 1_000_000 / denom;
            let conf = if conf_raw >= 1_000_000 {
                1_000_000int
            } else {
                conf_raw
            };
            Some(
                FuzzyPattern {
                    pattern_type: PatternKind::SequenceSimilarity,
                    size: Frac {
                        num: pos_sum_from(d, start, pl, 0) as i128,
                        den: spec_max(pos_count_from(d, start, pl, 0), 1) as i128,
                    },
                    frequency_minutes: Frac { num: secs as i128, den: (60 * cnt) as i128 },
                    confidence: conf as u64,
                    occurrences: (cnt + 1) as usize,
                    method_confidence: (conf * 4 / 5) as u64,
                },
            )
        } else {
            None
        }
    }
}

/// The candidates of all windows of length `pl` from `start` on.
pub open spec fn patterns_at_length(d: Seq<i64>, ts: Seq<u64>, pl: int, start: int) -> Seq<
    FuzzyPattern,
>
    decreases d.len() - pl + 1 - start,
{
    if start < 0 || start > d.len() - pl {
        Seq::empty()
    } else {
        let rest = patterns_at_length(d, ts, pl, start + 1);
        match pattern_for(d, ts, start, pl) {
            Some(p) => seq![p] + rest,
            None => rest,
        }
    }
}

/// The candidates of every window length from `pl` to fifteen.
pub open spec fn patterns_all_from(d: Seq<i64>, ts: Seq<u64>, pl: int) -> Seq<FuzzyPattern>
    decreases 16 - pl,
{
    if pl > 15 {
        Seq::empty()
    } else {
        (if pl <= d.len() {
            patterns_at_length(d, ts, pl, 0)
        } else {
            Seq::empty()
        }) + patterns_all_from(d, ts, pl + 1)
    }
}

/// What subsequence-similarity detection reports: the three best window
/// candidates over all lengths.
pub open spec fn spec_detect_seqsim(d: Seq<i64>, ts: Seq<u64>) -> Seq<FuzzyPattern> {
    select_top(patterns_all_from(d, ts, 3), 3)
}

/// The similarity of one element pair, in thousandths.
fn pair_sim(a: i64, b: i64) -> (r: u64)
    requires
        -DELTA_LIMIT <= a <= DELTA_LIMIT,
        -DELTA_LIMIT <= b <= DELTA_LIMIT,
    ensures
        r == pair_sim_milli(a as int, b as int),
        r <= 1000,
{
    if a == 0 && b == 0 {
        1000
    } else if a == 0 || b == 0 {
        100
    } else {
        let aa: i128 = if a >= 0 {
            a as i128
        } else {
            -(a as i128)
        };
        let bb: i128 = if b >= 0 {
            b as i128
        } else {
            -(b as i128)
        };
        let m = if aa >= bb {
            aa
        } else {
            bb
        };
        let diff: i128 = if a as i128 >= b as i128 {
            a as i128 - b as i128
        } else {
            b as i128 - a as i128
        };
        proof {
            vstd::arithmetic::div_mod::lemma_div_pos_is_pos(1000 * diff as int, m as int);
        }
        let penalty = 1000 * diff / m;
        let capped: i128 = if penalty >= 1000 {
            1000
        } else {
            penalty
        };
        (1000 - capped) as u64
    }
}

/// Whether the windows at `s1` and `s2` of length `len` are similar:
/// their mean per-element similarity reaches six tenths.
pub fn sequence_similarity(d: &Vec<i64>, s1: usize, s2: usize, len: usize) -> (r: bool)
    requires
        forall|t: int| 0 <= t < d@.len() ==> -DELTA_LIMIT <= #[trigger] d@[t] <= DELTA_LIMIT,
        s1 + len <= d@.len(),
        s2 + len <= d@.len(),
        d@.len() <= SEQ_LIMIT,
    ensures
        r == is_similar(d@, s1 as int, s2 as int, len as int),
{
    let mut score: u64 = 0;
    let mut k: usize = 0;
    while k < len
        invariant
            forall|t: int| 0 <= t < d@.len() ==> -DELTA_LIMIT <= #[trigger] d@[t] <= DELTA_LIMIT,
            s1 + len <= d@.len(),
            s2 + len <= d@.len(),
            d@.len() <= SEQ_LIMIT,
            0 <= k <= len,
            window_score_from(d@, s1 as int, s2 as int, len as int, 0) == score
                + window_score_from(d@, s1 as int, s2 as int, len as int, k as int),
            score <= 1000 * k,
        decreases len - k,
    {
        let p = pair_sim(d[s1 + k], d[s2 + k]);
        score += p;
        k += 1;
    }
    score >= 600 * (len as u64)
}

/// The candidate of one window, when enough later windows are similar.
fn pattern_for_window(d: &Vec<i64>, ts: &Vec<u64>, start: usize, pl: usize) -> (r: Option<
    FuzzyPattern,
>)
    requires
        forall|t: int| 0 <= t < d@.len() ==> -DELTA_LIMIT <= #[trigger] d@[t] <= DELTA_LIMIT,
        forall|t: int| 0 <= t < ts@.len() ==> #[trigger] ts@[t] <= TS_LIMIT,
        ts@.len() == d@.len() + 1,
        d@.len() <= SEQ_LIMIT,
        start + pl <= d@.len(),
        0 < pl,
    ensures
        r == pattern_for(d@, ts@, start as int, pl as int),
        r matches Some(p) ==> fuzzy_wf(p),
{
    // An all-zero window carries no pattern.
    let mut k: usize = 0;
    let mut zero = true;
    while k < pl
        invariant
            start + pl <= d@.len(),
            d@.len() <= SEQ_LIMIT,
            0 <= k <= pl,
            zero || k == pl,
            zero == (forall|t: int| 0 <= t < k ==> #[trigger] d@[start + t] == 0),
        decreases pl - k,
    {
        if d[start + k] != 0 {
            assert(d@[start + k as int] != 0);
            zero = false;
            k = pl;
        } else {
            assert(forall|t: int| 0 <= t < k + 1 ==> #[trigger] d@[start + t] == 0);
            k += 1;
        }
    }
    if zero {
        assert(window_all_zero(d@, start as int, pl as int));
        return None;
    }
    assert(!window_all_zero(d@, start as int, pl as int));
    // Count the later similar windows and remember the last one.
    let limit = d.len() - pl;
    let mut cnt: usize = 0;
    let mut last: usize = start;
    let mut s: usize = start + pl;
    while s <= limit
        invariant
            forall|t: int| 0 <= t < d@.len() ==> -DELTA_LIMIT <= #[trigger] d@[t] <= DELTA_LIMIT,
            d@.len() <= SEQ_LIMIT,
            start + pl <= d@.len(),
            0 < pl,
            limit == d@.len() - pl,
            start + pl <= s,
            s <= limit + 1 || s == start + pl,
            cnt + matches_from(d@, start as int, pl as int, s as int) == matches_from(
                d@,
                start as int,
                pl as int,
                start as int + pl as int,
            ),
            last == last_match_upto(d@, start as int, pl as int, s as int),
            start <= last,
            last <= limit || last == start,
            cnt + start + pl <= s,
        decreases limit + 1 - s,
    {
        if sequence_similarity(d, start, s, pl) {
            cnt += 1;
            last = s;
        }
        s += 1;
    }
    assert(matches_from(d@, start as int, pl as int, limit as int + 1) == 0);
    if cnt < 2 {
        return None;
    }
    // Mean positive size of the window.
    let mut psum: i128 = 0;
    let mut pcnt: usize = 0;
    let mut k: usize = 0;
    while k < pl
        invariant
            forall|t: int| 0 <= t < d@.len() ==> -DELTA_LIMIT <= #[trigger] d@[t] <= DELTA_LIMIT,
            start + pl <= d@.len(),
            d@.len() <= SEQ_LIMIT,
            pl <= SEQ_LIMIT,
            0 <= k <= pl,
            psum + pos_sum_from(d@, start as int, pl as int, k as int) == pos_sum_from(
                d@,
                start as int,
                pl as int,
                0,
            ),
            pcnt + pos_count_from(d@, start as int, pl as int, k as int) == pos_count_from(
                d@,
                start as int,
                pl as int,
                0,
            ),
            0 <= psum <= k * DELTA_LIMIT,
            pcnt <= k,
        decreases pl - k,
    {
        proof {
            assert((k as int) * DELTA_LIMIT + DELTA_LIMIT == ((k as int) + 1) * DELTA_LIMIT)
                by (nonlinear_arith);
            assert(((k as int) + 1) * DELTA_LIMIT <= (SEQ_LIMIT as int) * DELTA_LIMIT)
                by (nonlinear_arith)
                requires
                    (k as int) + 1 <= SEQ_LIMIT as int,
            ;
        }
        let v = d[start + k];
        if v > 0 {
            psum += v as i128;
            pcnt += 1;
        }
        k += 1;
    }
    let sden: i128 = if pcnt >= 1 {
        pcnt as i128
    } else {
        1
    };
    let size = Frac::new(psum, sden);
    let secs = sat_sub_u64(ts[last + 1], ts[start + 1]);
    let freq = Frac::new(secs as i128, 60 * (cnt as i128));
    let dv = d.len() / pl;
    let denom: usize = if dv >= 1 {
        dv
    } else {
        1
    };
    let conf_raw: u64 = (((cnt + 1) as u64) * 1_000_000) / (denom as u64);
    let conf: u64 = if conf_raw >= 1_000_000 {
        1_000_000
    } else {
        conf_raw
    };
    let p = FuzzyPattern {
        pattern_type: PatternKind::SequenceSimilarity,
        size,
        frequency_minutes: freq,
        confidence: conf,
        occurrences: cnt + 1,
        method_confidence: conf * 4 / 5,
    };
    proof {
        assert(p == pattern_for(d@, ts@, start as int, pl as int)->0);
    }
    Some(p)
}

/// Detects subsequence-similarity patterns: the three best recurring
/// windows over all lengths from three to fifteen.  Every reported
/// pattern is backed by at least three occurrences, the window itself
/// included.
pub fn detect_sequence_similarity_patterns(d: &Vec<i64>, ts: &Vec<u64>) -> (r: Vec<FuzzyPattern>)
    requires
        ts@.len() == d@.len() + 1,
        d@.len() <= SEQ_LIMIT,
        forall|t: int| 0 <= t < d@.len() ==> -DELTA_LIMIT <= #[trigger] d@[t] <= DELTA_LIMIT,
        forall|t: int| 0 <= t < ts@.len() ==> #[trigger] ts@[t] <= TS_LIMIT,
    ensures
        r@ == spec_detect_seqsim(d@, ts@),
        forall|j: int| 0 <= j < r@.len() ==> fuzzy_wf(#[trigger] r@[j]),
        r@.len() <= 3,
{
    let mut all: Vec<FuzzyPattern> = Vec::new();
    let mut pl: usize = 3;
    while pl <= 15
        invariant
            ts@.len() == d@.len() + 1,
            d@.len() <= SEQ_LIMIT,
            forall|t: int| 0 <= t < d@.len() ==> -DELTA_LIMIT <= #[trigger] d@[t] <= DELTA_LIMIT,
            forall|t: int| 0 <= t < ts@.len() ==> #[trigger] ts@[t] <= TS_LIMIT,
            3 <= pl <= 16,
            patterns_all_from(d@, ts@, 3) == all@ + patterns_all_from(d@, ts@, pl as int),
            forall|t: int| 0 <= t < all@.len() ==> fuzzy_wf(#[trigger] all@[t]),
        decreases 16 - pl,
    {
        if pl <= d.len() {
            let ghost pre = all@;
            let mut start: usize = 0;
            while start <= d.len() - pl
                invariant
                    ts@.len() == d@.len() + 1,
                    d@.len() <= SEQ_LIMIT,
                    forall|t: int|
                        0 <= t < d@.len() ==> -DELTA_LIMIT <= #[trigger] d@[t] <= DELTA_LIMIT,
                    forall|t: int| 0 <= t < ts@.len() ==> #[trigger] ts@[t] <= TS_LIMIT,
                    3 <= pl <= 15,
                    pl <= d@.len(),
                    0 <= start <= d@.len() - pl + 1,
                    pre + patterns_at_length(d@, ts@, pl as int, 0) == all@
                        + patterns_at_length(d@, ts@, pl as int, start as int),
                    forall|t: int| 0 <= t < all@.len() ==> fuzzy_wf(#[trigger] all@[t]),
                decreases d@.len() - pl - start + 1,
            {
                let ghost mid = all@;
                match pattern_for_window(d, ts, start, pl) {
                    Some(p) => {
                        all.push(p);
                        assert(mid + patterns_at_length(d@, ts@, pl as int, start as int) =~= all@
                            + patterns_at_length(d@, ts@, pl as int, start as int + 1));
                    },
                    None => {
                        assert(mid + patterns_at_length(d@, ts@, pl as int, start as int) =~= all@
                            + patterns_at_length(d@, ts@, pl as int, start as int + 1));
                    },
                }
                start += 1;
            }
            assert(patterns_at_length(d@, ts@, pl as int, d@.len() - pl + 1) =~= Seq::<
                FuzzyPattern,
            >::empty());
            assert(pre + patterns_all_from(d@, ts@, pl as int) =~= all@ + patterns_all_from(
                d@,
                ts@,
                pl as int + 1,
            ));
        } else {
            assert(patterns_all_from(d@, ts@, pl as int) =~= patterns_all_from(
                d@,
                ts@,
                pl as int + 1,
            ));
        }
        pl += 1;
    }
    assert(patterns_all_from(d@, ts@, 16) =~= Seq::<FuzzyPattern>::empty());
    assert(all@ + Seq::<FuzzyPattern>::empty() =~= all@);
    let ghost allg = all@;
    let top = select_top_k(all, 3);
    proof {
        lemma_select_top_membership(allg, 3);
        lemma_select_top_len(allg, 3);
        assert forall|x: int| 0 <= x < top@.len() implies fuzzy_wf(#[trigger] top@[x]) by {
            let p = top@[x];
            assert(allg.contains(p));
            let w = choose|w: int| 0 <= w < allg.len() && allg[w] == p;
            assert(fuzzy_wf(allg[w]));
        }
    }
    top
}

} // verus!
