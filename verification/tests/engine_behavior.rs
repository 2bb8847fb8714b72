use bazaar_metrics::engine::MetricsEngine;
use bazaar_metrics::frac::Frac;
use bazaar_metrics::snapshot::{OrderLevel, Snapshot};
use bazaar_metrics::state::ProductMetricsState;

fn level(amount: i64, price_key: u64, order_count: i64) -> OrderLevel {
    OrderLevel { amount, price_key, order_count }
}

fn snap(
    buy_price_milli: i64,
    sell_price_milli: i64,
    buy_orders: Vec<OrderLevel>,
    sell_orders: Vec<OrderLevel>,
    buy_moving_week: i64,
    sell_moving_week: i64,
) -> Snapshot {
    Snapshot { buy_price_milli, sell_price_milli, buy_orders, sell_orders, buy_moving_week, sell_moving_week }
}

fn frac_is(f: &Frac, num: i128, den: i128) -> bool {
    f.num == num && f.den == den
}

/// Counter 100 -> 100 -> 130 across three ticks sixty seconds apart,
/// with no order-book change: zero instabuy events, ground truth 30,
/// and no pattern.
#[test]
fn scenario_constant_book_counter_step() {
    let mut engine = MetricsEngine::new();
    let book = vec![level(64, 5000, 2)];
    let t0: u64 = 1_700_000_000;
    for (i, counter) in [100i64, 100, 130].iter().enumerate() {
        let s = snap(5_000, 4_000, book.clone(), book.clone(), *counter, 0);
        engine.ingest(String::from("ENCHANTED_COAL"), &s, t0 + 60 * i as u64);
    }
    let results = engine.finalize_and_reset();
    assert_eq!(results.len(), 1);
    let r = &results[0];
    assert_eq!(r.product_id, "ENCHANTED_COAL");
    // Zero instabuy events: frequency and size both read as zero.
    assert_eq!(r.player_instabuy_transaction_frequency.num, 0);
    assert!(r.player_instabuy_transaction_frequency.den >= 1);
    assert!(frac_is(&r.player_instabuy_transaction_size_average, 0, 1));
    // Ground-truth accumulated volume is exactly 30.
    assert!(frac_is(&r.instabuy_estimated_true_volume, 30, 1));
    // No pattern from two tick-pairs: size and frequency read as zero.
    assert!(frac_is(&r.instabuy_modal_size, 0, 1));
    assert!(frac_is(&r.instabuy_pattern_frequency, 0, 1));
}

/// Feeding an unchanged snapshot twice gives a tick-pair whose stored
/// deltas and inferred volumes are all zero.
#[test]
fn unchanged_snapshot_is_quiet() {
    let book_b = vec![level(640, 5000, 3), level(100, 5100, 1)];
    let book_s = vec![level(12, 9000, 1)];
    let s = snap(5_000, 9_000, book_b.clone(), book_s.clone(), 500, 700);
    let mut st = ProductMetricsState::new(&s, 1000);
    st.update(&s, 1060);
    assert_eq!(st.windows_processed, 2 - 1);
    assert_eq!(st.store.buy_mw_deltas, vec![0]);
    assert_eq!(st.store.sell_mw_deltas, vec![0]);
    assert_eq!(st.store.buy_orders_deltas, vec![0]);
    assert_eq!(st.store.sell_orders_deltas, vec![0]);
    assert_eq!(st.store.buy_amount_deltas, vec![0]);
    assert_eq!(st.store.sell_amount_deltas, vec![0]);
    assert_eq!(st.store.inferred_buy_volume, vec![0]);
    assert_eq!(st.store.inferred_sell_volume, vec![0]);
    assert_eq!(st.player_instabuy_event_count, 0);
    assert_eq!(st.player_instasell_event_count, 0);
    assert_eq!(st.total_new_demand_offers, 0);
    assert_eq!(st.total_new_supply_offer_amount, 0);
}

/// A counter that steps backwards is clamped: the ground-truth total
/// never decreases within a window.
#[test]
fn ground_truth_total_is_monotonic() {
    let s0 = snap(1_000, 1_000, vec![], vec![], 100, 50);
    let mut st = ProductMetricsState::new(&s0, 0);
    let mut previous_total = st.total_buy_moving_week_activity;
    for (i, counter) in [40i64, 90, 90, 20, 500].iter().enumerate() {
        let s = snap(1_000, 1_000, vec![], vec![], *counter, 50);
        st.update(&s, 20 * (i as u64 + 1));
        assert!(st.total_buy_moving_week_activity >= previous_total);
        previous_total = st.total_buy_moving_week_activity;
    }
    // Clamped deltas: only the rises 40->90 and 20->500 count.
    assert_eq!(st.total_buy_moving_week_activity, 50 + 480);
    // The raw deltas keep their signs in the store.
    assert_eq!(st.store.buy_mw_deltas, vec![-60, 50, 0, -70, 480]);
}

/// The rolling store evicts first-in first-out at its capacity of one
/// hundred and eighty tick-pairs.
#[test]
fn rolling_store_evicts_oldest() {
    let s0 = snap(1_000, 1_000, vec![], vec![], 0, 0);
    let mut st = ProductMetricsState::new(&s0, 0);
    for i in 1..=200i64 {
        let s = snap(1_000, 1_000, vec![], vec![], i, 0);
        st.update(&s, 20 * i as u64);
    }
    assert_eq!(st.store.buy_mw_deltas.len(), 180);
    assert_eq!(st.store.timestamps.len(), 181);
    // The first twenty deltas were evicted; every survivor is one.
    assert!(st.store.buy_mw_deltas.iter().all(|d| *d == 1));
    assert_eq!(st.store.timestamps[0], 20 * 20);
    // The accumulators still cover the whole window.
    assert_eq!(st.total_buy_moving_week_activity, 200);
    assert_eq!(st.snapshot_count, 201);
}

/// Entities are tracked independently, and finalizing clears the
/// engine for the next reporting window.
#[test]
fn engine_tracks_entities_and_resets() {
    let mut engine = MetricsEngine::new();
    let a = snap(2_000, 1_000, vec![], vec![], 10, 0);
    let b = snap(4_000, 3_000, vec![], vec![], 99, 0);
    engine.ingest(String::from("A"), &a, 100);
    engine.ingest(String::from("B"), &b, 100);
    engine.ingest(String::from("A"), &a, 120);
    let results = engine.finalize_and_reset();
    assert_eq!(results.len(), 2);
    assert_eq!(results[0].product_id, "A");
    assert_eq!(results[1].product_id, "B");
    // A saw two snapshots, B one.
    assert!(frac_is(&results[0].instabuy_price_average, 4_000, 2_000));
    assert!(frac_is(&results[1].instabuy_price_average, 4_000, 1_000));
    assert_eq!(engine.finalize_and_reset().len(), 0);
}

/// The finalizer of a single-snapshot state emits no zero denominator
/// anywhere, even though every count except the snapshot count is
/// zero.
#[test]
fn finalizer_guards_every_division() {
    let s0 = snap(1_234, 5_678, vec![], vec![], 0, 0);
    let st = ProductMetricsState::new(&s0, 77);
    let r = st.finalize_with_sequences(String::from("X"));
    for f in [
        &r.instabuy_price_average,
        &r.instasell_price_average,
        &r.new_demand_offer_frequency_average,
        &r.new_demand_offer_size_average,
        &r.player_instabuy_transaction_frequency,
        &r.player_instabuy_transaction_size_average,
        &r.new_supply_offer_frequency_average,
        &r.new_supply_offer_size_average,
        &r.player_instasell_transaction_frequency,
        &r.player_instasell_transaction_size_average,
        &r.instabuy_modal_size,
        &r.instabuy_pattern_frequency,
        &r.instabuy_scale_factor,
        &r.instabuy_estimated_true_volume,
        &r.instasell_modal_size,
        &r.instasell_pattern_frequency,
        &r.instasell_scale_factor,
        &r.instasell_estimated_true_volume,
        &r.pattern_detection_confidence,
    ] {
        assert!(f.den >= 1);
    }
    assert!(frac_is(&r.instabuy_price_average, 1_234, 1_000));
    assert!(frac_is(&r.instasell_price_average, 5_678, 1_000));
    assert!(frac_is(&r.new_demand_offer_frequency_average, 0, 1));
}

/// Exact averages after two snapshots: price sums over the snapshot
/// count, offer sums over the window count.
#[test]
fn finalizer_exact_averages() {
    let prev = snap(1_000, 2_000, vec![level(10, 77, 2)], vec![], 0, 0);
    let cur = snap(3_000, 6_000, vec![level(10, 77, 2), level(200, 88, 4)], vec![], 40, 0);
    let mut st = ProductMetricsState::new(&prev, 0);
    st.update(&cur, 60);
    let r = st.finalize_with_sequences(String::from("Y"));
    // Price averages: (1000 + 3000) / (1000 * 2) milli-coins.
    assert!(frac_is(&r.instabuy_price_average, 4_000, 2_000));
    assert!(frac_is(&r.instasell_price_average, 8_000, 2_000));
    // One window gained one brand-new demand level of four orders and
    // two hundred amount.
    assert!(frac_is(&r.new_demand_offer_frequency_average, 4, 1));
    assert!(frac_is(&r.new_demand_offer_size_average, 200, 4));
    // Ground truth of the one tick-pair.
    assert!(frac_is(&r.instabuy_estimated_true_volume, 40, 1));
}

/// The well-formedness screen accepts clamped values and rejects
/// negatives and oversized quantities.
#[test]
fn snapshot_screening() {
    let good = snap(1_000, 2_000, vec![level(5, 7, 1)], vec![], 10, 10);
    assert!(good.is_well_formed());
    let negative_amount = snap(1_000, 2_000, vec![level(-5, 7, 1)], vec![], 10, 10);
    assert!(!negative_amount.is_well_formed());
    let negative_counter = snap(1_000, 2_000, vec![], vec![], -1, 0);
    assert!(!negative_counter.is_well_formed());
    let oversized = snap(i64::MAX, 0, vec![], vec![], 0, 0);
    assert!(!oversized.is_well_formed());
}

/// Low coverage of the counter-anchored total by the inferred volume
/// yields the capped diagnostic scale factor of two.
#[test]
fn scale_factor_caps_at_two() {
    // Six tick-pairs: the counter moves fifty each, the book loses ten
    // units at one level each, so coverage is 60 / 300 = 0.2.
    let mut st = ProductMetricsState::new(
        &snap(1_000, 1_000, vec![level(1_000, 42, 1)], vec![], 0, 0),
        0,
    );
    for i in 1..=6i64 {
        let s = snap(
            1_000,
            1_000,
            vec![level(1_000 - 10 * i, 42, 1)],
            vec![],
            50 * i,
            0,
        );
        st.update(&s, 600 * i as u64);
    }
    assert_eq!(st.player_instabuy_volume_total, 60);
    assert_eq!(st.total_buy_moving_week_activity, 300);
    let r = st.finalize_with_sequences(String::from("Z"));
    // A pattern exists (six equal deltas at regular intervals), so the
    // inverse coverage of five is clamped to the cap of two.
    assert!(frac_is(&r.instabuy_scale_factor, 2_000, 1_000));
    assert!(frac_is(&r.instabuy_estimated_true_volume, 300, 1));
    assert!(frac_is(&r.player_instabuy_transaction_size_average, 60, 6));
}

/// Full coverage leaves the scale factor at one.
#[test]
fn scale_factor_stays_one_at_full_coverage() {
    let mut st = ProductMetricsState::new(
        &snap(1_000, 1_000, vec![level(1_000, 42, 1)], vec![], 0, 0),
        0,
    );
    for i in 1..=6i64 {
        let s = snap(
            1_000,
            1_000,
            vec![level(1_000 - 50 * i, 42, 1)],
            vec![],
            50 * i,
            0,
        );
        st.update(&s, 600 * i as u64);
    }
    let r = st.finalize_with_sequences(String::from("Z"));
    assert!(frac_is(&r.instabuy_scale_factor, 1, 1));
}

/// A new demand price level contributes its whole order count and
/// amount to the accumulators.
#[test]
fn scenario_new_demand_level() {
    let prev = snap(1_000, 1_000, vec![level(50, 10, 1)], vec![], 0, 0);
    let cur = snap(1_000, 1_000, vec![level(50, 10, 1), level(200, 11, 4)], vec![], 0, 0);
    let mut st = ProductMetricsState::new(&prev, 0);
    st.update(&cur, 20);
    assert_eq!(st.total_new_demand_offers, 4);
    assert_eq!(st.total_new_demand_offer_amount, 200);
    assert_eq!(st.total_new_supply_offers, 0);
}
