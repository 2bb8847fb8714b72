//! Per-entity rolling state.
//!
//! One `ProductMetricsState` lives for the duration of a reporting
//! window: it accumulates price sums, new-offer totals, inferred
//! consumption events and counter-anchored activity, keeps exactly one
//! previous snapshot, and feeds the rolling delta store.  What one
//! ingested snapshot does to the whole state is pinned by the `tick`
//! function on the state's model.
use vstd::prelude::*;

use crate::diff::{
    consumed_between, consumed_events, consumed_volume, list_totals, new_offer_amount,
    new_offer_count, new_offers_between, total_amount, total_orders,
};
use crate::snapshot::{Snapshot, SnapshotModel, AMOUNT_LIMIT, LIST_LIMIT, TICK_LIMIT, TS_LIMIT};
use crate::store::{store_pushed, DeltaStore, StoreModel, TickDeltas, DELTA_LIMIT};

verus! {

/// The mathematical content of one entity's rolling state.
pub ghost struct StateModel {
    pub sum_instabuy_price_milli: int,
    pub sum_instasell_price_milli: int,
    pub snapshot_count: int,
    pub windows_processed: int,
    pub prev_snapshot: SnapshotModel,
    pub total_new_demand_offers: int,
    pub total_new_demand_offer_amount: int,
    pub total_new_supply_offers: int,
    pub total_new_supply_offer_amount: int,
    pub player_instabuy_event_count: int,
    pub player_instabuy_volume_total: int,
    pub player_instasell_event_count: int,
    pub player_instasell_volume_total: int,
    pub prev_buy_moving_week: int,
    pub prev_sell_moving_week: int,
    pub total_buy_moving_week_activity: int,
    pub total_sell_moving_week_activity: int,
    pub store: StoreModel,
}

/// The largest sum one tick-pair can contribute to an offer or volume
/// accumulator: a full order list of maximal amounts.
pub open spec fn window_sum_limit() -> int {
    LIST_LIMIT as int * AMOUNT_LIMIT as int
}

impl StateModel {
    /// Validity of a state: counts aligned, the previous snapshot well
    /// formed and mirrored in the counter fields, every accumulator
    /// bounded by what its tick count allows, and the store valid.
    pub open spec fn wf(self) -> bool {
        &&& 1 <= self.snapshot_count <= TICK_LIMIT
        &&& self.windows_processed == self.snapshot_count - 1
        &&& self.prev_snapshot.wf()
        &&& self.prev_buy_moving_week == self.prev_snapshot.buy_moving_week
        &&& self.prev_sell_moving_week == self.prev_snapshot.sell_moving_week
        &&& 0 <= self.sum_instabuy_price_milli <= self.snapshot_count * AMOUNT_LIMIT
        &&& 0 <= self.sum_instasell_price_milli <= self.snapshot_count * AMOUNT_LIMIT
        &&& 0 <= self.total_new_demand_offers <= self.windows_processed * window_sum_limit()
        &&& 0 <= self.total_new_demand_offer_amount <= self.windows_processed * window_sum_limit()
        &&& 0 <= self.total_new_supply_offers <= self.windows_processed * window_sum_limit()
        &&& 0 <= self.total_new_supply_offer_amount <= self.windows_processed * window_sum_limit()
        &&& 0 <= self.player_instabuy_event_count <= self.windows_processed * LIST_LIMIT
        &&& 0 <= self.player_instabuy_volume_total <= self.windows_processed * window_sum_limit()
        &&& 0 <= self.player_instasell_event_count <= self.windows_processed * LIST_LIMIT
        &&& 0 <= self.player_instasell_volume_total <= self.windows_processed * window_sum_limit()
        &&& 0 <= self.total_buy_moving_week_activity <= self.windows_processed * AMOUNT_LIMIT
        &&& 0 <= self.total_sell_moving_week_activity <= self.windows_processed * AMOUNT_LIMIT
        &&& self.store.wf()
    }
}

/// The fresh state created by an entity's first snapshot.
pub open spec fn init_model(s: SnapshotModel, now: int) -> StateModel {
    StateModel {
        sum_instabuy_price_milli: s.buy_price_milli,
        sum_instasell_price_milli: s.sell_price_milli,
        snapshot_count: 1,
        windows_processed: 0,
        prev_snapshot: s,
        total_new_demand_offers: 0,
        total_new_demand_offer_amount: 0,
        total_new_supply_offers: 0,
        total_new_supply_offer_amount: 0,
        player_instabuy_event_count: 0,
        player_instabuy_volume_total: 0,
        player_instasell_event_count: 0,
        player_instasell_volume_total: 0,
        prev_buy_moving_week: s.buy_moving_week,
        prev_sell_moving_week: s.sell_moving_week,
        total_buy_moving_week_activity: 0,
        total_sell_moving_week_activity: 0,
        store: StoreModel {
            buy_mw_deltas: Seq::empty(),
            sell_mw_deltas: Seq::empty(),
            buy_orders_deltas: Seq::empty(),
            sell_orders_deltas: Seq::empty(),
            buy_amount_deltas: Seq::empty(),
            sell_amount_deltas: Seq::empty(),
            inferred_buy_volume: Seq::empty(),
            inferred_sell_volume: Seq::empty(),
            timestamps: seq![now as u64],
        },
    }
}

/// A counter delta clamped at zero: the counter-anchored ground truth
/// of one tick-pair.
pub open spec fn clamped(delta: int) -> int {
    if delta > 0 {
        delta
    } else {
        0
    }
}

/// The per-tick signals that diffing the previous snapshot against the
/// current one yields.
pub open spec fn tick_deltas_of(prev: SnapshotModel, s: SnapshotModel) -> TickDeltas {
    TickDeltas {
        buy_mw_delta: (s.buy_moving_week - prev.buy_moving_week) as i64,
        sell_mw_delta: (s.sell_moving_week - prev.sell_moving_week) as i64,
        buy_orders_delta: (total_orders(s.buy_orders) - total_orders(prev.buy_orders)) as i64,
        sell_orders_delta: (total_orders(s.sell_orders) - total_orders(prev.sell_orders)) as i64,
        buy_amount_delta: (total_amount(s.buy_orders) - total_amount(prev.buy_orders)) as i64,
        sell_amount_delta: (total_amount(s.sell_orders) - total_amount(prev.sell_orders)) as i64,
        inferred_buy: consumed_volume(prev.buy_orders, s.buy_orders) as i64,
        inferred_sell: consumed_volume(prev.sell_orders, s.sell_orders) as i64,
    }
}

/// What ingesting one snapshot does to a state: prices are summed, the
/// diff engine's signals are accumulated, the counter-anchored activity
/// grows by the clamped counter delta, the previous snapshot is
/// replaced, and the tick-pair joins the rolling store.
pub open spec fn tick(m: StateModel, s: SnapshotModel, now: int) -> StateModel {
    let prev = m.prev_snapshot;
    let buy_events = consumed_events(prev.buy_orders, s.buy_orders);
    let buy_volume = consumed_volume(prev.buy_orders, s.buy_orders);
    let sell_events = consumed_events(prev.sell_orders, s.sell_orders);
    let sell_volume = consumed_volume(prev.sell_orders, s.sell_orders);
    StateModel {
        sum_instabuy_price_milli: m.sum_instabuy_price_milli + s.buy_price_milli,
        sum_instasell_price_milli: m.sum_instasell_price_milli + s.sell_price_milli,
        snapshot_count: m.snapshot_count + 1,
        windows_processed: m.windows_processed + 1,
        prev_snapshot: s,
        total_new_demand_offers: m.total_new_demand_offers + new_offer_count(
            prev.buy_orders,
            s.buy_orders,
        ),
        total_new_demand_offer_amount: m.total_new_demand_offer_amount + new_offer_amount(
            prev.buy_orders,
            s.buy_orders,
        ),
        total_new_supply_offers: m.total_new_supply_offers + new_offer_count(
            prev.sell_orders,
            s.sell_orders,
        ),
        total_new_supply_offer_amount: m.total_new_supply_offer_amount + new_offer_amount(
            prev.sell_orders,
            s.sell_orders,
        ),
        player_instabuy_event_count: m.player_instabuy_event_count + buy_events,
        player_instabuy_volume_total: m.player_instabuy_volume_total + (if buy_events > 0 {
            buy_volume
        } else {
            0
        }),
        player_instasell_event_count: m.player_instasell_event_count + sell_events,
        player_instasell_volume_total: m.player_instasell_volume_total + (if sell_events > 0 {
            sell_volume
        } else {
            0
        }),
        prev_buy_moving_week: s.buy_moving_week,
        prev_sell_moving_week: s.sell_moving_week,
        total_buy_moving_week_activity: m.total_buy_moving_week_activity + clamped(
            s.buy_moving_week - m.prev_buy_moving_week,
        ),
        total_sell_moving_week_activity: m.total_sell_moving_week_activity + clamped(
            s.sell_moving_week - m.prev_sell_moving_week,
        ),
        store: store_pushed(m.store, tick_deltas_of(prev, s), now as u64),
    }
}

/// One entity's rolling metrics state.
#[derive(Debug)]
pub struct ProductMetricsState {
    /// Sum of the best instabuy prices seen, thousandths of a coin.
    pub sum_instabuy_price_milli: i128,
    /// Sum of the best instasell prices seen, thousandths of a coin.
    pub sum_instasell_price_milli: i128,
    /// Snapshots ingested, the first one included.
    pub snapshot_count: u64,
    /// Tick-pairs diffed: always one less than the snapshot count.
    pub windows_processed: u64,
    /// The one previous snapshot, replaced every tick.
    pub prev_snapshot: Snapshot,
    pub total_new_demand_offers: i128,
    pub total_new_demand_offer_amount: i128,
    pub total_new_supply_offers: i128,
    pub total_new_supply_offer_amount: i128,
    pub player_instabuy_event_count: u64,
    pub player_instabuy_volume_total: i128,
    pub player_instasell_event_count: u64,
    pub player_instasell_volume_total: i128,
    pub prev_buy_moving_week: i64,
    pub prev_sell_moving_week: i64,
    pub total_buy_moving_week_activity: i128,
    pub total_sell_moving_week_activity: i128,
    pub store: DeltaStore,
}

impl View for ProductMetricsState {
    type V = StateModel;

    open spec fn view(&self) -> StateModel {
        StateModel {
            sum_instabuy_price_milli: self.sum_instabuy_price_milli as int,
            sum_instasell_price_milli: self.sum_instasell_price_milli as int,
            snapshot_count: self.snapshot_count as int,
            windows_processed: self.windows_processed as int,
            prev_snapshot: self.prev_snapshot@,
            total_new_demand_offers: self.total_new_demand_offers as int,
            total_new_demand_offer_amount: self.total_new_demand_offer_amount as int,
            total_new_supply_offers: self.total_new_supply_offers as int,
            total_new_supply_offer_amount: self.total_new_supply_offer_amount as int,
            player_instabuy_event_count: self.player_instabuy_event_count as int,
            player_instabuy_volume_total: self.player_instabuy_volume_total as int,
            player_instasell_event_count: self.player_instasell_event_count as int,
            player_instasell_volume_total: self.player_instasell_volume_total as int,
            prev_buy_moving_week: self.prev_buy_moving_week as int,
            prev_sell_moving_week: self.prev_sell_moving_week as int,
            total_buy_moving_week_activity: self.total_buy_moving_week_activity as int,
            total_sell_moving_week_activity: self.total_sell_moving_week_activity as int,
            store: self.store@,
        }
    }
}

impl ProductMetricsState {
    pub open spec fn wf(self) -> bool {
        self@.wf()
    }

    /// The state an entity's first snapshot creates.
    pub fn new(first: &Snapshot, now: u64) -> (r: ProductMetricsState)
        requires
            first.wf(),
            now <= TS_LIMIT,
        ensures
            r.wf(),
            r@ == init_model(first@, now as int),
    {
        ProductMetricsState {
            sum_instabuy_price_milli: first.buy_price_milli as i128,
            sum_instasell_price_milli: first.sell_price_milli as i128,
            snapshot_count: 1,
            windows_processed: 0,
            prev_snapshot: first.duplicate(),
            total_new_demand_offers: 0,
            total_new_demand_offer_amount: 0,
            total_new_supply_offers: 0,
            total_new_supply_offer_amount: 0,
            player_instabuy_event_count: 0,
            player_instabuy_volume_total: 0,
            player_instasell_event_count: 0,
            player_instasell_volume_total: 0,
            prev_buy_moving_week: first.buy_moving_week,
            prev_sell_moving_week: first.sell_moving_week,
            total_buy_moving_week_activity: 0,
            total_sell_moving_week_activity: 0,
            store: DeltaStore::new(now),
        }
    }

    /// Ingests one snapshot: diffs it against the previous one,
    /// accumulates every signal, and replaces the previous snapshot.
    /// The whole effect is `tick` on the state's model.
    pub fn update(&mut self, current: &Snapshot, now: u64)
        requires
            old(self).wf(),
            current.wf(),
            now <= TS_LIMIT,
            old(self).snapshot_count < TICK_LIMIT,
        ensures
            final(self).wf(),
            final(self)@ == tick(old(self)@, current@, now as int),
    {
        proof {
            lemma_accum_steps(old(self)@);
        }
        let (buy_volume, buy_events) = consumed_between(
            &self.prev_snapshot.buy_orders,
            &current.buy_orders,
        );
        let (sell_volume, sell_events) = consumed_between(
            &self.prev_snapshot.sell_orders,
            &current.sell_orders,
        );
        let (demand_offers, demand_amount) = new_offers_between(
            &self.prev_snapshot.buy_orders,
            &current.buy_orders,
        );
        let (supply_offers, supply_amount) = new_offers_between(
            &self.prev_snapshot.sell_orders,
            &current.sell_orders,
        );
        let (prev_buy_amount_total, prev_buy_orders_total) = list_totals(
            &self.prev_snapshot.buy_orders,
        );
        let (prev_sell_amount_total, prev_sell_orders_total) = list_totals(
            &self.prev_snapshot.sell_orders,
        );
        let (cur_buy_amount_total, cur_buy_orders_total) = list_totals(&current.buy_orders);
        let (cur_sell_amount_total, cur_sell_orders_total) = list_totals(&current.sell_orders);
        let buy_mw_delta = current.buy_moving_week - self.prev_buy_moving_week;
        let sell_mw_delta = current.sell_moving_week - self.prev_sell_moving_week;
        let deltas = TickDeltas {
            buy_mw_delta,
            sell_mw_delta,
            buy_orders_delta: cur_buy_orders_total - prev_buy_orders_total,
            sell_orders_delta: cur_sell_orders_total - prev_sell_orders_total,
            buy_amount_delta: cur_buy_amount_total - prev_buy_amount_total,
            sell_amount_delta: cur_sell_amount_total - prev_sell_amount_total,
            inferred_buy: buy_volume,
            inferred_sell: sell_volume,
        };
        assert(deltas == tick_deltas_of(old(self)@.prev_snapshot, current@));
        self.store.push_tick(deltas, now);
        self.snapshot_count = self.snapshot_count + 1;
        self.windows_processed = self.windows_processed + 1;
        self.sum_instabuy_price_milli = self.sum_instabuy_price_milli + (
        current.buy_price_milli as i128);
        self.sum_instasell_price_milli = self.sum_instasell_price_milli + (
        current.sell_price_milli as i128);
        self.total_new_demand_offers = self.total_new_demand_offers + (demand_offers as i128);
        self.total_new_demand_offer_amount = self.total_new_demand_offer_amount + (
        demand_amount as i128);
        self.total_new_supply_offers = self.total_new_supply_offers + (supply_offers as i128);
        self.total_new_supply_offer_amount = self.total_new_supply_offer_amount + (
        supply_amount as i128);
        if buy_events > 0 {
            self.player_instabuy_event_count = self.player_instabuy_event_count + buy_events;
            self.player_instabuy_volume_total = self.player_instabuy_volume_total + (
            buy_volume as i128);
        } else {
            self.player_instabuy_event_count = self.player_instabuy_event_count + buy_events;
        }
        if sell_events > 0 {
            self.player_instasell_event_count = self.player_instasell_event_count + sell_events;
            self.player_instasell_volume_total = self.player_instasell_volume_total + (
            sell_volume as i128);
        } else {
            self.player_instasell_event_count = self.player_instasell_event_count + sell_events;
        }
        if buy_mw_delta > 0 {
            self.total_buy_moving_week_activity = self.total_buy_moving_week_activity + (
            buy_mw_delta as i128);
        }
        if sell_mw_delta > 0 {
            self.total_sell_moving_week_activity = self.total_sell_moving_week_activity + (
            sell_mw_delta as i128);
        }
        self.prev_buy_moving_week = current.buy_moving_week;
        self.prev_sell_moving_week = current.sell_moving_week;
        self.prev_snapshot = current.duplicate();
    }
}

/// One accumulation step stays in machine range: every per-window
/// contribution is bounded, and one more window keeps each accumulator
/// under its limit.
proof fn lemma_accum_steps(m: StateModel)
    requires
        m.wf(),
        m.snapshot_count < TICK_LIMIT,
    ensures
        m.snapshot_count * AMOUNT_LIMIT + AMOUNT_LIMIT == (m.snapshot_count + 1) * AMOUNT_LIMIT,
        (m.snapshot_count + 1) * AMOUNT_LIMIT <= TICK_LIMIT * AMOUNT_LIMIT,
        m.windows_processed * window_sum_limit() + window_sum_limit() == (m.windows_processed + 1)
            * window_sum_limit(),
        (m.windows_processed + 1) * window_sum_limit() <= TICK_LIMIT * window_sum_limit(),
        m.windows_processed * LIST_LIMIT + LIST_LIMIT == (m.windows_processed + 1) * LIST_LIMIT,
        (m.windows_processed + 1) * LIST_LIMIT <= TICK_LIMIT * LIST_LIMIT,
        m.windows_processed * AMOUNT_LIMIT + AMOUNT_LIMIT == (m.windows_processed + 1)
            * AMOUNT_LIMIT,
{
    assert(m.snapshot_count * AMOUNT_LIMIT + AMOUNT_LIMIT == (m.snapshot_count + 1) * AMOUNT_LIMIT)
        by (nonlinear_arith);
    assert((m.snapshot_count + 1) * AMOUNT_LIMIT <= TICK_LIMIT * AMOUNT_LIMIT) by (nonlinear_arith)
        requires
            m.snapshot_count + 1 <= TICK_LIMIT,
    ;
    assert(m.windows_processed * window_sum_limit() + window_sum_limit() == (m.windows_processed
        + 1) * window_sum_limit()) by (nonlinear_arith);
    assert((m.windows_processed + 1) * window_sum_limit() <= TICK_LIMIT * window_sum_limit())
        by (nonlinear_arith)
        requires
            m.windows_processed + 1 <= TICK_LIMIT,
            window_sum_limit() > 0,
    ;
    assert(m.windows_processed * LIST_LIMIT + LIST_LIMIT == (m.windows_processed + 1) * LIST_LIMIT)
        by (nonlinear_arith);
    assert((m.windows_processed + 1) * LIST_LIMIT <= TICK_LIMIT * LIST_LIMIT) by (nonlinear_arith)
        requires
            m.windows_processed + 1 <= TICK_LIMIT,
    ;
    assert(m.windows_processed * AMOUNT_LIMIT + AMOUNT_LIMIT == (m.windows_processed + 1)
        * AMOUNT_LIMIT) by (nonlinear_arith);
}

} // verus!
