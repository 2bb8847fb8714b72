//! Snapshot diff engine.
//!
//! Given the previous and the current order list of one entity, this module
//! infers consumed volume (instabuy/instasell events), detects new offers,
//! and sums list totals.  A list is read as a price-keyed map in which the
//! last level carrying a key supplies that key's amount and order count,
//! and a key that is absent reads as zero; a discrepancy between inferred
//! and counter-anchored volume is a signal, never an error.
use vstd::prelude::*;

use crate::snapshot::{levels_wf, OrderLevel, AMOUNT_LIMIT, LIST_LIMIT};

verus! {

/// The amount stored at `key`, read as a map where the last occurrence of
/// a key wins and a missing key reads as zero.
pub open spec fn amount_at(s: Seq<OrderLevel>, key: u64) -> int
    decreases s.len(),
{
    if s.len() == 0 {
        0
    } else if s.last().price_key == key {
        s.last().amount as int
    } else {
        amount_at(s.drop_last(), key)
    }
}

/// The order count stored at `key`, last occurrence wins, zero if absent.
pub open spec fn orders_at(s: Seq<OrderLevel>, key: u64) -> int
    decreases s.len(),
{
    if s.len() == 0 {
        0
    } else if s.last().price_key == key {
        s.last().order_count as int
    } else {
        orders_at(s.drop_last(), key)
    }
}

/// Whether some level of the list carries `key`.
pub open spec fn has_level(s: Seq<OrderLevel>, key: u64) -> bool {
    exists|i: int| 0 <= i < s.len() && (#[trigger] s[i]).price_key == key
}

/// Whether position `i` is the last occurrence of its own key.
pub open spec fn is_last_occurrence(s: Seq<OrderLevel>, i: int) -> bool {
    forall|j: int| i < j < s.len() ==> (#[trigger] s[j]).price_key != s[i].price_key
}

/// No two levels of the list share a price key.
pub open spec fn distinct_keys(s: Seq<OrderLevel>) -> bool {
    forall|i: int, j: int|
        0 <= i < j < s.len() ==> (#[trigger] s[i]).price_key != (#[trigger] s[j]).price_key
}

/// Volume consumed at the price levels of `prev` from position `i` on:
/// for each distinct key of `prev`, the decrease of its amount in `cur`
/// (the whole amount if the key vanished), counted at the key's last
/// occurrence so that each level contributes once.
pub open spec fn consumed_volume_from(prev: Seq<OrderLevel>, cur: Seq<OrderLevel>, i: int) -> int
    decreases prev.len() - i,
{
    if i < 0 || i >= prev.len() {
        0
    } else {
        let here = if is_last_occurrence(prev, i) && prev[i].amount > amount_at(
            cur,
            prev[i].price_key,
        ) {
            prev[i].amount - amount_at(cur, prev[i].price_key)
        } else {
            0
        };
        here + consumed_volume_from(prev, cur, i + 1)
    }
}

/// Number of price levels of `prev` whose amount strictly decreased.
pub open spec fn consumed_events_from(prev: Seq<OrderLevel>, cur: Seq<OrderLevel>, i: int) -> int
    decreases prev.len() - i,
{
    if i < 0 || i >= prev.len() {
        0
    } else {
        let here: int = if is_last_occurrence(prev, i) && prev[i].amount > amount_at(
            cur,
            prev[i].price_key,
        ) {
            1
        } else {
            0
        };
        here + consumed_events_from(prev, cur, i + 1)
    }
}

/// Total inferred consumed volume between two order lists.
pub open spec fn consumed_volume(prev: Seq<OrderLevel>, cur: Seq<OrderLevel>) -> int {
    consumed_volume_from(prev, cur, 0)
}

/// Total count of inferred consumption events between two order lists.
pub open spec fn consumed_events(prev: Seq<OrderLevel>, cur: Seq<OrderLevel>) -> int {
    consumed_events_from(prev, cur, 0)
}

/// New offers seen in `cur` from position `i` on: a level whose key is
/// new contributes its whole order count, a level whose order count grew
/// contributes the growth.
pub open spec fn new_offer_count_from(prev: Seq<OrderLevel>, cur: Seq<OrderLevel>, i: int) -> int
    decreases cur.len() - i,
{
    if i < 0 || i >= cur.len() {
        0
    } else {
        let k = cur[i].price_key;
        let here = if has_level(prev, k) {
            if cur[i].order_count > orders_at(prev, k) {
                cur[i].order_count - orders_at(prev, k)
            } else {
                0
            }
        } else {
            cur[i].order_count as int
        };
        here + new_offer_count_from(prev, cur, i + 1)
    }
}

/// Amount carried by the new offers of `new_offer_count_from`: amount
/// growth is counted only at a level whose order count also grew, and a
/// wholly new level contributes its whole amount.
pub open spec fn new_offer_amount_from(prev: Seq<OrderLevel>, cur: Seq<OrderLevel>, i: int) -> int
    decreases cur.len() - i,
{
    if i < 0 || i >= cur.len() {
        0
    } else {
        let k = cur[i].price_key;
        let here = if has_level(prev, k) {
            if cur[i].order_count > orders_at(prev, k) && cur[i].amount > amount_at(prev, k) {
                cur[i].amount - amount_at(prev, k)
            } else {
                0
            }
        } else {
            cur[i].amount as int
        };
        here + new_offer_amount_from(prev, cur, i + 1)
    }
}

pub open spec fn new_offer_count(prev: Seq<OrderLevel>, cur: Seq<OrderLevel>) -> int {
    new_offer_count_from(prev, cur, 0)
}

pub open spec fn new_offer_amount(prev: Seq<OrderLevel>, cur: Seq<OrderLevel>) -> int {
    new_offer_amount_from(prev, cur, 0)
}

/// Sum of the amounts of all levels from position `i` on.
pub open spec fn total_amount_from(s: Seq<OrderLevel>, i: int) -> int
    decreases s.len() - i,
{
    if i < 0 || i >= s.len() {
        0
    } else {
        s[i].amount + total_amount_from(s, i + 1)
    }
}

/// Sum of the order counts of all levels from position `i` on.
pub open spec fn total_orders_from(s: Seq<OrderLevel>, i: int) -> int
    decreases s.len() - i,
{
    if i < 0 || i >= s.len() {
        0
    } else {
        s[i].order_count + total_orders_from(s, i + 1)
    }
}

pub open spec fn total_amount(s: Seq<OrderLevel>) -> int {
    total_amount_from(s, 0)
}

pub open spec fn total_orders(s: Seq<OrderLevel>) -> int {
    total_orders_from(s, 0)
}

/// One accumulation step stays under the sum bound that a well-formed
/// list guarantees.
pub proof fn lemma_amount_sum_step(i: int, n: int)
    requires
        0 <= i < n,
        n <= LIST_LIMIT as int,
    ensures
        i * AMOUNT_LIMIT + AMOUNT_LIMIT == (i + 1) * AMOUNT_LIMIT,
        (i + 1) * AMOUNT_LIMIT <= n * AMOUNT_LIMIT,
        n * AMOUNT_LIMIT <= 0x400_0000_0000_0000,
{
    assert(i * AMOUNT_LIMIT + AMOUNT_LIMIT == (i + 1) * AMOUNT_LIMIT) by (nonlinear_arith);
    assert((i + 1) * AMOUNT_LIMIT <= n * AMOUNT_LIMIT) by (nonlinear_arith)
        requires
            i + 1 <= n,
    ;
    assert(n * AMOUNT_LIMIT <= LIST_LIMIT as int * AMOUNT_LIMIT) by (nonlinear_arith)
        requires
            n <= LIST_LIMIT as int,
    ;
}

/// A stored amount is bounded by the bounds of the list's levels.
pub proof fn lemma_amount_at_bounds(s: Seq<OrderLevel>, key: u64)
    requires
        levels_wf(s),
    ensures
        0 <= amount_at(s, key) <= AMOUNT_LIMIT,
        0 <= orders_at(s, key) <= AMOUNT_LIMIT,
    decreases s.len(),
{
    if s.len() > 0 {
        assert(s.last() == s[s.len() - 1]);
        assert(s[s.len() - 1].wf());
        if s.last().price_key != key {
            assert(forall|i: int| 0 <= i < s.len() - 1 ==> #[trigger] s.drop_last()[i] == s[i]);
            assert(levels_wf(s.drop_last()));
            lemma_amount_at_bounds(s.drop_last(), key);
        }
    }
}

/// At the last occurrence of a key, the map reads the level's own fields.
pub proof fn lemma_last_occurrence_lookup(s: Seq<OrderLevel>, i: int)
    requires
        0 <= i < s.len(),
        is_last_occurrence(s, i),
    ensures
        amount_at(s, s[i].price_key) == s[i].amount,
        orders_at(s, s[i].price_key) == s[i].order_count,
    decreases s.len(),
{
    if i == s.len() - 1 {
    } else {
        assert(s.last().price_key != s[i].price_key);
        assert(forall|j: int| 0 <= j < s.len() - 1 ==> #[trigger] s.drop_last()[j] == s[j]);
        assert(is_last_occurrence(s.drop_last(), i));
        lemma_last_occurrence_lookup(s.drop_last(), i);
    }
}

/// Diffing a list against itself consumes nothing.
pub proof fn lemma_consumed_self_zero(s: Seq<OrderLevel>, i: int)
    ensures
        consumed_volume_from(s, s, i) == 0,
        consumed_events_from(s, s, i) == 0,
    decreases s.len() - i,
{
    if 0 <= i < s.len() {
        if is_last_occurrence(s, i) {
            lemma_last_occurrence_lookup(s, i);
        }
        lemma_consumed_self_zero(s, i + 1);
    }
}

/// Diffing a duplicate-free list against itself yields no new offers.
/// (A list that lists one key twice genuinely reads as changed, because
/// the map keeps only the last occurrence.)
pub proof fn lemma_new_offers_self_zero(s: Seq<OrderLevel>, i: int)
    requires
        distinct_keys(s),
    ensures
        new_offer_count_from(s, s, i) == 0,
        new_offer_amount_from(s, s, i) == 0,
    decreases s.len() - i,
{
    if 0 <= i < s.len() {
        assert(has_level(s, s[i].price_key));
        assert(is_last_occurrence(s, i));
        lemma_last_occurrence_lookup(s, i);
        lemma_new_offers_self_zero(s, i + 1);
    }
}

/// Looks the amount of `key` up, scanning so that the last occurrence
/// wins, as `amount_at` reads the list.
pub fn lookup_amount(s: &Vec<OrderLevel>, key: u64) -> (r: i64)
    ensures
        r == amount_at(s@, key),
{
    assert(s@.take(s@.len() as int) =~= s@);
    let mut j: usize = s.len();
    while j > 0
        invariant
            0 <= j <= s@.len(),
            amount_at(s@, key) == amount_at(s@.take(j as int), key),
        decreases j,
    {
        j -= 1;
        if s[j].price_key == key {
            assert(s@.take(j as int + 1).last() == s@[j as int]);
            return s[j].amount;
        }
        assert(s@.take(j as int + 1).drop_last() =~= s@.take(j as int));
    }
    0
}

/// Looks the order count of `key` up, last occurrence wins.
pub fn lookup_orders(s: &Vec<OrderLevel>, key: u64) -> (r: i64)
    ensures
        r == orders_at(s@, key),
{
    assert(s@.take(s@.len() as int) =~= s@);
    let mut j: usize = s.len();
    while j > 0
        invariant
            0 <= j <= s@.len(),
            orders_at(s@, key) == orders_at(s@.take(j as int), key),
        decreases j,
    {
        j -= 1;
        if s[j].price_key == key {
            assert(s@.take(j as int + 1).last() == s@[j as int]);
            return s[j].order_count;
        }
        assert(s@.take(j as int + 1).drop_last() =~= s@.take(j as int));
    }
    0
}

/// Whether `key` occurs at or after position `from`.
pub fn has_key_from(s: &Vec<OrderLevel>, key: u64, from: usize) -> (r: bool)
    ensures
        r == exists|j: int| from <= j < s@.len() && (#[trigger] s@[j]).price_key == key,
{
    let mut j: usize = from;
    while j < s.len()
        invariant
            from <= j,
            j <= s@.len() || j == from,
            forall|k: int| from <= k < j ==> (#[trigger] s@[k]).price_key != key,
        decreases s@.len() - j,
    {
        if s[j].price_key == key {
            return true;
        }
        j += 1;
    }
    false
}

/// Infers consumed volume and consumption events between two order lists:
/// the sums that `consumed_volume` and `consumed_events` define, each
/// distinct price level of `prev` contributing once.
pub fn consumed_between(prev: &Vec<OrderLevel>, cur: &Vec<OrderLevel>) -> (r: (i64, u64))
    requires
        levels_wf(prev@),
        levels_wf(cur@),
    ensures
        r.0 == consumed_volume(prev@, cur@),
        r.1 == consumed_events(prev@, cur@),
        0 <= r.0 <= prev@.len() * AMOUNT_LIMIT,
        0 <= r.1 <= prev@.len(),
{
    let mut vol: i64 = 0;
    let mut events: u64 = 0;
    let mut i: usize = 0;
    while i < prev.len()
        invariant
            levels_wf(prev@),
            levels_wf(cur@),
            0 <= i <= prev@.len(),
            consumed_volume(prev@, cur@) == vol + consumed_volume_from(prev@, cur@, i as int),
            consumed_events(prev@, cur@) == events + consumed_events_from(prev@, cur@, i as int),
            0 <= vol <= i * AMOUNT_LIMIT,
            0 <= events <= i,
        decreases prev@.len() - i,
    {
        let lv = prev[i];
        proof {
            assert(prev@[i as int].wf());
            lemma_amount_sum_step(i as int, prev@.len() as int);
        }
        let last_here = !has_key_from(prev, lv.price_key, i + 1);
        assert(last_here == is_last_occurrence(prev@, i as int));
        if last_here {
            let cur_amt = lookup_amount(cur, lv.price_key);
            proof {
                lemma_amount_at_bounds(cur@, lv.price_key);
            }
            if lv.amount > cur_amt {
                vol += lv.amount - cur_amt;
                events += 1;
            }
        }
        i += 1;
    }
    (vol, events)
}

/// Detects new offers between two order lists: the sums that
/// `new_offer_count` and `new_offer_amount` define, every level of `cur`
/// contributing.
pub fn new_offers_between(prev: &Vec<OrderLevel>, cur: &Vec<OrderLevel>) -> (r: (i64, i64))
    requires
        levels_wf(prev@),
        levels_wf(cur@),
    ensures
        r.0 == new_offer_count(prev@, cur@),
        r.1 == new_offer_amount(prev@, cur@),
        0 <= r.0 <= cur@.len() * AMOUNT_LIMIT,
        0 <= r.1 <= cur@.len() * AMOUNT_LIMIT,
{
    let mut offers: i64 = 0;
    let mut amount: i64 = 0;
    let mut i: usize = 0;
    while i < cur.len()
        invariant
            levels_wf(prev@),
            levels_wf(cur@),
            0 <= i <= cur@.len(),
            new_offer_count(prev@, cur@) == offers + new_offer_count_from(
                prev@,
                cur@,
                i as int,
            ),
            new_offer_amount(prev@, cur@) == amount + new_offer_amount_from(
                prev@,
                cur@,
                i as int,
            ),
            0 <= offers <= i * AMOUNT_LIMIT,
            0 <= amount <= i * AMOUNT_LIMIT,
        decreases cur@.len() - i,
    {
        let lv = cur[i];
        let in_prev = has_key_from(prev, lv.price_key, 0);
        assert(in_prev == has_level(prev@, lv.price_key));
        proof {
            assert(cur@[i as int].wf());
            lemma_amount_at_bounds(prev@, lv.price_key);
            lemma_amount_sum_step(i as int, cur@.len() as int);
        }
        if in_prev {
            let prev_orders = lookup_orders(prev, lv.price_key);
            if lv.order_count > prev_orders {
                offers += lv.order_count - prev_orders;
                let prev_amount = lookup_amount(prev, lv.price_key);
                if lv.amount > prev_amount {
                    amount += lv.amount - prev_amount;
                }
            }
        } else {
            offers += lv.order_count;
            amount += lv.amount;
        }
        i += 1;
    }
    (offers, amount)
}

/// Sums the amounts and the order counts of one list.
pub fn list_totals(s: &Vec<OrderLevel>) -> (r: (i64, i64))
    requires
        levels_wf(s@),
    ensures
        r.0 == total_amount(s@),
        r.1 == total_orders(s@),
        0 <= r.0 <= s@.len() * AMOUNT_LIMIT,
        0 <= r.1 <= s@.len() * AMOUNT_LIMIT,
{
    let mut amount: i64 = 0;
    let mut orders: i64 = 0;
    let mut i: usize = 0;
    while i < s.len()
        invariant
            levels_wf(s@),
            0 <= i <= s@.len(),
            total_amount(s@) == amount + total_amount_from(s@, i as int),
            total_orders(s@) == orders + total_orders_from(s@, i as int),
            0 <= amount <= i * AMOUNT_LIMIT,
            0 <= orders <= i * AMOUNT_LIMIT,
        decreases s@.len() - i,
    {
        proof {
            assert(s@[i as int].wf());
            lemma_amount_sum_step(i as int, s@.len() as int);
        }
        amount += s[i].amount;
        orders += s[i].order_count;
        i += 1;
    }
    (amount, orders)
}

} // verus!
