//! Engine-wide laws.
//!
//! Properties that relate several operations of the library, stated
//! over the same models that the operations' own contracts use.
use vstd::prelude::*;

use crate::diff::{distinct_keys, lemma_consumed_self_zero, lemma_new_offers_self_zero};
use crate::state::{tick, tick_deltas_of, StateModel};
use crate::store::{store_pushed, TickDeltas};

verus! {

/// Feeding an entity its own previous snapshot again produces a fully
/// quiet tick-pair: every stored delta and inferred volume is zero,
/// and no event, offer or activity accumulator moves.  Duplicate-free
/// order lists are required: a list that prices one level twice reads
/// as changed, because the price map keeps only the last occurrence.
pub proof fn lemma_unchanged_snapshot_is_quiet(m: StateModel, now: int)
    requires
        m.wf(),
        distinct_keys(m.prev_snapshot.buy_orders),
        distinct_keys(m.prev_snapshot.sell_orders),
    ensures
        tick(m, m.prev_snapshot, now).store == store_pushed(
            m.store,
            TickDeltas {
                buy_mw_delta: 0,
                sell_mw_delta: 0,
                buy_orders_delta: 0,
                sell_orders_delta: 0,
                buy_amount_delta: 0,
                sell_amount_delta: 0,
                inferred_buy: 0,
                inferred_sell: 0,
            },
            now as u64,
        ),
        tick(m, m.prev_snapshot, now).player_instabuy_event_count
            == m.player_instabuy_event_count,
        tick(m, m.prev_snapshot, now).player_instabuy_volume_total
            == m.player_instabuy_volume_total,
        tick(m, m.prev_snapshot, now).player_instasell_event_count
            == m.player_instasell_event_count,
        tick(m, m.prev_snapshot, now).player_instasell_volume_total
            == m.player_instasell_volume_total,
        tick(m, m.prev_snapshot, now).total_new_demand_offers == m.total_new_demand_offers,
        tick(m, m.prev_snapshot, now).total_new_demand_offer_amount
            == m.total_new_demand_offer_amount,
        tick(m, m.prev_snapshot, now).total_new_supply_offers == m.total_new_supply_offers,
        tick(m, m.prev_snapshot, now).total_new_supply_offer_amount
            == m.total_new_supply_offer_amount,
        tick(m, m.prev_snapshot, now).total_buy_moving_week_activity
            == m.total_buy_moving_week_activity,
        tick(m, m.prev_snapshot, now).total_sell_moving_week_activity
            == m.total_sell_moving_week_activity,
{
    let s = m.prev_snapshot;
    lemma_consumed_self_zero(s.buy_orders, 0);
    lemma_consumed_self_zero(s.sell_orders, 0);
    lemma_new_offers_self_zero(s.buy_orders, 0);
    lemma_new_offers_self_zero(s.sell_orders, 0);
    assert(tick_deltas_of(s, s) == TickDeltas {
        buy_mw_delta: 0,
        sell_mw_delta: 0,
        buy_orders_delta: 0,
        sell_orders_delta: 0,
        buy_amount_delta: 0,
        sell_amount_delta: 0,
        inferred_buy: 0,
        inferred_sell: 0,
    });
}

/// Counter-anchored activity accumulation is monotonic: whatever a
/// tick's raw counter delta is, the ground-truth totals never
/// decrease, because a negative delta is clamped to zero.
pub proof fn lemma_ground_truth_monotonic(
    m: StateModel,
    s: crate::snapshot::SnapshotModel,
    now: int,
)
    ensures
        tick(m, s, now).total_buy_moving_week_activity >= m.total_buy_moving_week_activity,
        tick(m, s, now).total_sell_moving_week_activity >= m.total_sell_moving_week_activity,
{
}

} // verus!
