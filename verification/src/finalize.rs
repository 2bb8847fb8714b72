//! Finalizer.
//!
//! A pure read of one entity's accumulated state: price and offer
//! averages with every division guarded, the fused pattern of each
//! side, a diagnostic scale factor, and the counter-anchored activity
//! total as the authoritative estimated true volume.  Every averaged
//! output is an exact fraction with a positive denominator, so no
//! reading of a result can ever divide by zero.
use vstd::prelude::*;

use crate::frac::Frac;
use crate::fuse::{detect_fuzzy_modal_pattern, spec_detect_fuzzy_modal};
use crate::legacy::detector_input_wf;
use crate::patterns::{DetectionMethod, ModalPattern, SidePatternDetails, SEQ_LIMIT};
use crate::state::{ProductMetricsState, StateModel};
use crate::store::STORE_CAP;

verus! {

/// How both sides' patterns were found, and how many candidates each
/// fuzzy detector produced, summed over the two sides.
#[derive(Clone, Copy, Debug)]
pub struct PatternDetails {
    pub detection_method_buy: DetectionMethod,
    pub detection_method_sell: DetectionMethod,
    /// Mean fused fuzzy confidence of the two sides, micro-units.
    pub fuzzy_confidence: u64,
    /// Mean legacy confidence, when the fallback decided a side.
    pub legacy_confidence: Option<u64>,
    pub sequence_patterns_found: usize,
    pub velocity_patterns_found: usize,
    pub rhythm_patterns_found: usize,
}

/// The stored delta history that a finalized record carries along.
#[derive(Debug)]
pub struct DeltaSequences {
    pub buy_moving_week: Vec<i64>,
    pub sell_moving_week: Vec<i64>,
    pub buy_orders: Vec<i64>,
    pub sell_orders: Vec<i64>,
    pub buy_amount: Vec<i64>,
    pub sell_amount: Vec<i64>,
    pub timestamps: Vec<u64>,
}

/// The mathematical content of the carried delta history.
pub ghost struct SequencesModel {
    pub buy_moving_week: Seq<i64>,
    pub sell_moving_week: Seq<i64>,
    pub buy_orders: Seq<i64>,
    pub sell_orders: Seq<i64>,
    pub buy_amount: Seq<i64>,
    pub sell_amount: Seq<i64>,
    pub timestamps: Seq<u64>,
}

impl View for DeltaSequences {
    type V = SequencesModel;

    open spec fn view(&self) -> SequencesModel {
        SequencesModel {
            buy_moving_week: self.buy_moving_week@,
            sell_moving_week: self.sell_moving_week@,
            buy_orders: self.buy_orders@,
            sell_orders: self.sell_orders@,
            buy_amount: self.buy_amount@,
            sell_amount: self.sell_amount@,
            timestamps: self.timestamps@,
        }
    }
}

/// The finalized, read-only analysis record of one entity.
#[derive(Debug)]
pub struct AnalysisResult {
    pub product_id: String,
    pub instabuy_price_average: Frac,
    pub instasell_price_average: Frac,
    pub new_demand_offer_frequency_average: Frac,
    pub new_demand_offer_size_average: Frac,
    pub player_instabuy_transaction_frequency: Frac,
    pub player_instabuy_transaction_size_average: Frac,
    pub new_supply_offer_frequency_average: Frac,
    pub new_supply_offer_size_average: Frac,
    pub player_instasell_transaction_frequency: Frac,
    pub player_instasell_transaction_size_average: Frac,
    pub instabuy_modal_size: Frac,
    pub instabuy_pattern_frequency: Frac,
    pub instabuy_scale_factor: Frac,
    pub instabuy_estimated_true_volume: Frac,
    pub instasell_modal_size: Frac,
    pub instasell_pattern_frequency: Frac,
    pub instasell_scale_factor: Frac,
    pub instasell_estimated_true_volume: Frac,
    pub pattern_detection_confidence: Frac,
    pub delta_sequences: DeltaSequences,
    pub pattern_details: PatternDetails,
}

/// The mathematical content of a finalized record.
pub ghost struct ResultModel {
    pub product_id: Seq<char>,
    pub instabuy_price_average: Frac,
    pub instasell_price_average: Frac,
    pub new_demand_offer_frequency_average: Frac,
    pub new_demand_offer_size_average: Frac,
    pub player_instabuy_transaction_frequency: Frac,
    pub player_instabuy_transaction_size_average: Frac,
    pub new_supply_offer_frequency_average: Frac,
    pub new_supply_offer_size_average: Frac,
    pub player_instasell_transaction_frequency: Frac,
    pub player_instasell_transaction_size_average: Frac,
    pub instabuy_modal_size: Frac,
    pub instabuy_pattern_frequency: Frac,
    pub instabuy_scale_factor: Frac,
    pub instabuy_estimated_true_volume: Frac,
    pub instasell_modal_size: Frac,
    pub instasell_pattern_frequency: Frac,
    pub instasell_scale_factor: Frac,
    pub instasell_estimated_true_volume: Frac,
    pub pattern_detection_confidence: Frac,
    pub delta_sequences: SequencesModel,
    pub pattern_details: PatternDetails,
}

impl View for AnalysisResult {
    type V = ResultModel;

    open spec fn view(&self) -> ResultModel {
        ResultModel {
            product_id: self.product_id@,
            instabuy_price_average: self.instabuy_price_average,
            instasell_price_average: self.instasell_price_average,
            new_demand_offer_frequency_average: self.new_demand_offer_frequency_average,
            new_demand_offer_size_average: self.new_demand_offer_size_average,
            player_instabuy_transaction_frequency: self.player_instabuy_transaction_frequency,
            player_instabuy_transaction_size_average: self.player_instabuy_transaction_size_average,
            new_supply_offer_frequency_average: self.new_supply_offer_frequency_average,
            new_supply_offer_size_average: self.new_supply_offer_size_average,
            player_instasell_transaction_frequency: self.player_instasell_transaction_frequency,
            player_instasell_transaction_size_average: self.player_instasell_transaction_size_average,
            instabuy_modal_size: self.instabuy_modal_size,
            instabuy_pattern_frequency: self.instabuy_pattern_frequency,
            instabuy_scale_factor: self.instabuy_scale_factor,
            instabuy_estimated_true_volume: self.instabuy_estimated_true_volume,
            instasell_modal_size: self.instasell_modal_size,
            instasell_pattern_frequency: self.instasell_pattern_frequency,
            instasell_scale_factor: self.instasell_scale_factor,
            instasell_estimated_true_volume: self.instasell_estimated_true_volume,
            pattern_detection_confidence: self.pattern_detection_confidence,
            delta_sequences: self.delta_sequences@,
            pattern_details: self.pattern_details,
        }
    }
}

/// A guarded average: the exact ratio when the denominator is
/// positive, zero otherwise.
pub open spec fn guarded_frac(num: int, den: int) -> Frac {
    if den > 0 {
        Frac { num: num as i128, den: den as i128 }
    } else {
        Frac { num: 0, den: 1 }
    }
}

/// The diagnostic scale factor of one side, in whole fractions over a
/// thousand: one when no pattern was found or coverage is at least
/// seven tenths; otherwise the inverse coverage, clamped between one
/// and two, and exactly two when no volume was inferred at all.
pub open spec fn scale_of(volume: int, activity: int, has_pattern: bool) -> Frac {
    if !has_pattern || activity <= 0 || 10 * volume >= 7 * activity {
        Frac { num: 1, den: 1 }
    } else if volume == 0 {
        Frac { num: 2, den: 1 }
    } else {
        let milli = 1000 * activity / volume;
        let clamped_milli = if milli < 1000 {
            1000int
        } else if milli > 2000 {
            2000int
        } else {
            milli
        };
        Frac { num: clamped_milli as i128, den: 1000 }
    }
}

/// The confidence of an optional pattern, zero when absent.
pub open spec fn conf_of_opt(p: Option<ModalPattern>) -> int {
    match p {
        Some(q) => q.confidence as int,
        None => 0,
    }
}

/// The combined bookkeeping of the two sides.
pub open spec fn combine_details(b: SidePatternDetails, s: SidePatternDetails) -> PatternDetails {
    PatternDetails {
        detection_method_buy: b.detection_method,
        detection_method_sell: s.detection_method,
        fuzzy_confidence: ((b.fuzzy_confidence + s.fuzzy_confidence) as int / 2) as u64,
        legacy_confidence: match (b.legacy_confidence, s.legacy_confidence) {
            (Some(x), Some(y)) => Some((((x + y) as int) / 2) as u64),
            (Some(x), None) => Some(x),
            (None, Some(y)) => Some(y),
            (None, None) => None,
        },
        sequence_patterns_found: (b.sequence_patterns_found + s.sequence_patterns_found) as usize,
        velocity_patterns_found: (b.velocity_patterns_found + s.velocity_patterns_found) as usize,
        rhythm_patterns_found: (b.rhythm_patterns_found + s.rhythm_patterns_found) as usize,
    }
}

/// What finalizing a state yields, field by field.
pub open spec fn analyze(m: StateModel, id: Seq<char>) -> ResultModel {
    let windows = m.windows_processed;
    let bside = spec_detect_fuzzy_modal(
        m.store.buy_mw_deltas,
        m.store.inferred_buy_volume,
        m.store.timestamps,
    );
    let sside = spec_detect_fuzzy_modal(
        m.store.sell_mw_deltas,
        m.store.inferred_sell_volume,
        m.store.timestamps,
    );
    ResultModel {
        product_id: id,
        instabuy_price_average: guarded_frac(
            m.sum_instabuy_price_milli,
            1000 * m.snapshot_count,
        ),
        instasell_price_average: guarded_frac(
            m.sum_instasell_price_milli,
            1000 * m.snapshot_count,
        ),
        new_demand_offer_frequency_average: guarded_frac(m.total_new_demand_offers, windows),
        new_demand_offer_size_average: guarded_frac(
            m.total_new_demand_offer_amount,
            m.total_new_demand_offers,
        ),
        player_instabuy_transaction_frequency: guarded_frac(
            m.player_instabuy_event_count,
            windows,
        ),
        player_instabuy_transaction_size_average: guarded_frac(
            m.player_instabuy_volume_total,
            m.player_instabuy_event_count,
        ),
        new_supply_offer_frequency_average: guarded_frac(m.total_new_supply_offers, windows),
        new_supply_offer_size_average: guarded_frac(
            m.total_new_supply_offer_amount,
            m.total_new_supply_offers,
        ),
        player_instasell_transaction_frequency: guarded_frac(
            m.player_instasell_event_count,
            windows,
        ),
        player_instasell_transaction_size_average: guarded_frac(
            m.player_instasell_volume_total,
            m.player_instasell_event_count,
        ),
        instabuy_modal_size: match bside.0 {
            Some(p) => p.size,
            None => Frac { num: 0, den: 1 },
        },
        instabuy_pattern_frequency: match bside.0 {
            Some(p) => p.frequency_minutes,
            None => Frac { num: 0, den: 1 },
        },
        instabuy_scale_factor: scale_of(
            m.player_instabuy_volume_total,
            m.total_buy_moving_week_activity,
            bside.0 is Some,
        ),
        instabuy_estimated_true_volume: Frac {
            num: m.total_buy_moving_week_activity as i128,
            den: 1,
        },
        instasell_modal_size: match sside.0 {
            Some(p) => p.size,
            None => Frac { num: 0, den: 1 },
        },
        instasell_pattern_frequency: match sside.0 {
            Some(p) => p.frequency_minutes,
            None => Frac { num: 0, den: 1 },
        },
        instasell_scale_factor: scale_of(
            m.player_instasell_volume_total,
            m.total_sell_moving_week_activity,
            sside.0 is Some,
        ),
        instasell_estimated_true_volume: Frac {
            num: m.total_sell_moving_week_activity as i128,
            den: 1,
        },
        pattern_detection_confidence: Frac {
            num: (100 * (conf_of_opt(bside.0) + conf_of_opt(sside.0))) as i128,
            den: 2_000_000,
        },
        delta_sequences: SequencesModel {
            buy_moving_week: m.store.buy_mw_deltas,
            sell_moving_week: m.store.sell_mw_deltas,
            buy_orders: m.store.buy_orders_deltas,
            sell_orders: m.store.sell_orders_deltas,
            buy_amount: m.store.buy_amount_deltas,
            sell_amount: m.store.sell_amount_deltas,
            timestamps: m.store.timestamps,
        },
        pattern_details: combine_details(bside.1, sside.1),
    }
}

/// Whether every fraction of a record is well formed: no reading of it
/// can divide by zero.
pub open spec fn result_wf(r: ResultModel) -> bool {
    &&& r.instabuy_price_average.wf()
    &&& r.instasell_price_average.wf()
    &&& r.new_demand_offer_frequency_average.wf()
    &&& r.new_demand_offer_size_average.wf()
    &&& r.player_instabuy_transaction_frequency.wf()
    &&& r.player_instabuy_transaction_size_average.wf()
    &&& r.new_supply_offer_frequency_average.wf()
    &&& r.new_supply_offer_size_average.wf()
    &&& r.player_instasell_transaction_frequency.wf()
    &&& r.player_instasell_transaction_size_average.wf()
    &&& r.instabuy_modal_size.wf()
    &&& r.instabuy_pattern_frequency.wf()
    &&& r.instabuy_scale_factor.wf()
    &&& r.instabuy_estimated_true_volume.wf()
    &&& r.instasell_modal_size.wf()
    &&& r.instasell_pattern_frequency.wf()
    &&& r.instasell_scale_factor.wf()
    &&& r.instasell_estimated_true_volume.wf()
    &&& r.pattern_detection_confidence.wf()
}

/// Copies a stored delta sequence.
fn copy_i64s(v: &Vec<i64>) -> (r: Vec<i64>)
    ensures
        r@ == v@,
{
    let mut out: Vec<i64> = Vec::new();
    let mut i: usize = 0;
    while i < v.len()
        invariant
            0 <= i <= v@.len(),
            out@ == v@.take(i as int),
        decreases v@.len() - i,
    {
        out.push(v[i]);
        assert(out@ =~= v@.take(i as int + 1));
        i += 1;
    }
    assert(v@.take(v@.len() as int) =~= v@);
    out
}

/// Copies a stored timestamp sequence.
fn copy_u64s(v: &Vec<u64>) -> (r: Vec<u64>)
    ensures
        r@ == v@,
{
    let mut out: Vec<u64> = Vec::new();
    let mut i: usize = 0;
    while i < v.len()
        invariant
            0 <= i <= v@.len(),
            out@ == v@.take(i as int),
        decreases v@.len() - i,
    {
        out.push(v[i]);
        assert(out@ =~= v@.take(i as int + 1));
        i += 1;
    }
    assert(v@.take(v@.len() as int) =~= v@);
    out
}

/// Builds a guarded average.
fn make_guarded(num: i128, den: i128) -> (r: Frac)
    requires
        -0x1_0000_0000_0000_0000_0000_0000_0000 <= num <= 0x1_0000_0000_0000_0000_0000_0000_0000,
        0 <= den <= 0x1_0000_0000_0000_0000_0000_0000_0000,
    ensures
        r == guarded_frac(num as int, den as int),
        r.wf(),
{
    if den > 0 {
        Frac::new(num, den)
    } else {
        Frac::zero()
    }
}

impl ProductMetricsState {
    /// Finalizes the state into one analysis record: every average
    /// guarded against a zero denominator, the pattern of each side
    /// fused from the detectors, the counter-anchored activity total
    /// reported as the estimated true volume, and the scale factor
    /// kept purely as a diagnostic.  A pure read: the state is not
    /// changed, and no fraction of the record can make a reader divide
    /// by zero.
    pub fn finalize_with_sequences(&self, product_id: String) -> (r: AnalysisResult)
        requires
            self.wf(),
        ensures
            r@ == analyze(self@, product_id@),
            result_wf(r@),
    {
        proof {
            lemma_state_numeric_bounds(self@);
            crate::fuse::lemma_detail_counts(
                self@.store.buy_mw_deltas,
                self@.store.inferred_buy_volume,
                self@.store.timestamps,
            );
            crate::fuse::lemma_detail_counts(
                self@.store.sell_mw_deltas,
                self@.store.inferred_sell_volume,
                self@.store.timestamps,
            );
            assert(STORE_CAP < SEQ_LIMIT);
            assert(detector_input_wf(
                self@.store.buy_mw_deltas,
                self@.store.inferred_buy_volume,
                self@.store.timestamps,
            ));
            assert(detector_input_wf(
                self@.store.sell_mw_deltas,
                self@.store.inferred_sell_volume,
                self@.store.timestamps,
            ));
        }
        let (buy_pattern, buy_details) = detect_fuzzy_modal_pattern(
            &self.store.buy_mw_deltas,
            &self.store.inferred_buy_volume,
            &self.store.timestamps,
        );
        let (sell_pattern, sell_details) = detect_fuzzy_modal_pattern(
            &self.store.sell_mw_deltas,
            &self.store.inferred_sell_volume,
            &self.store.timestamps,
        );
        let windows = self.windows_processed as i128;
        let instabuy_price_average = make_guarded(
            self.sum_instabuy_price_milli,
            1000 * (self.snapshot_count as i128),
        );
        let instasell_price_average = make_guarded(
            self.sum_instasell_price_milli,
            1000 * (self.snapshot_count as i128),
        );
        let new_demand_offer_frequency_average = make_guarded(
            self.total_new_demand_offers,
            windows,
        );
        let new_demand_offer_size_average = make_guarded(
            self.total_new_demand_offer_amount,
            self.total_new_demand_offers,
        );
        let player_instabuy_transaction_frequency = make_guarded(
            self.player_instabuy_event_count as i128,
            windows,
        );
        let player_instabuy_transaction_size_average = make_guarded(
            self.player_instabuy_volume_total,
            self.player_instabuy_event_count as i128,
        );
        let new_supply_offer_frequency_average = make_guarded(
            self.total_new_supply_offers,
            windows,
        );
        let new_supply_offer_size_average = make_guarded(
            self.total_new_supply_offer_amount,
            self.total_new_supply_offers,
        );
        let player_instasell_transaction_frequency = make_guarded(
            self.player_instasell_event_count as i128,
            windows,
        );
        let player_instasell_transaction_size_average = make_guarded(
            self.player_instasell_volume_total,
            self.player_instasell_event_count as i128,
        );
        let instabuy_scale_factor = make_scale(
            self.player_instabuy_volume_total,
            self.total_buy_moving_week_activity,
            buy_pattern.is_some(),
        );
        let instasell_scale_factor = make_scale(
            self.player_instasell_volume_total,
            self.total_sell_moving_week_activity,
            sell_pattern.is_some(),
        );
        let (instabuy_modal_size, instabuy_pattern_frequency) = match &buy_pattern {
            Some(p) => (p.size, p.frequency_minutes),
            None => (Frac::zero(), Frac::zero()),
        };
        let (instasell_modal_size, instasell_pattern_frequency) = match &sell_pattern {
            Some(p) => (p.size, p.frequency_minutes),
            None => (Frac::zero(), Frac::zero()),
        };
        let buy_conf: u64 = match &buy_pattern {
            Some(p) => p.confidence,
            None => 0,
        };
        let sell_conf: u64 = match &sell_pattern {
            Some(p) => p.confidence,
            None => 0,
        };
        let pattern_detection_confidence = Frac::new(
            100 * ((buy_conf + sell_conf) as i128),
            2_000_000,
        );
        let pattern_details = PatternDetails {
            detection_method_buy: buy_details.detection_method,
            detection_method_sell: sell_details.detection_method,
            fuzzy_confidence: (buy_details.fuzzy_confidence + sell_details.fuzzy_confidence) / 2,
            legacy_confidence: match (
                buy_details.legacy_confidence,
                sell_details.legacy_confidence,
            ) {
                (Some(x), Some(y)) => Some((x + y) / 2),
                (Some(x), None) => Some(x),
                (None, Some(y)) => Some(y),
                (None, None) => None,
            },
            sequence_patterns_found: buy_details.sequence_patterns_found
                + sell_details.sequence_patterns_found,
            velocity_patterns_found: buy_details.velocity_patterns_found
                + sell_details.velocity_patterns_found,
            rhythm_patterns_found: buy_details.rhythm_patterns_found
                + sell_details.rhythm_patterns_found,
        };
        let delta_sequences = DeltaSequences {
            buy_moving_week: copy_i64s(&self.store.buy_mw_deltas),
            sell_moving_week: copy_i64s(&self.store.sell_mw_deltas),
            buy_orders: copy_i64s(&self.store.buy_orders_deltas),
            sell_orders: copy_i64s(&self.store.sell_orders_deltas),
            buy_amount: copy_i64s(&self.store.buy_amount_deltas),
            sell_amount: copy_i64s(&self.store.sell_amount_deltas),
            timestamps: copy_u64s(&self.store.timestamps),
        };
        AnalysisResult {
            product_id,
            instabuy_price_average,
            instasell_price_average,
            new_demand_offer_frequency_average,
            new_demand_offer_size_average,
            player_instabuy_transaction_frequency,
            player_instabuy_transaction_size_average,
            new_supply_offer_frequency_average,
            new_supply_offer_size_average,
            player_instasell_transaction_frequency,
            player_instasell_transaction_size_average,
            instabuy_modal_size,
            instabuy_pattern_frequency,
            instabuy_scale_factor,
            instabuy_estimated_true_volume: Frac::new(self.total_buy_moving_week_activity, 1),
            instasell_modal_size,
            instasell_pattern_frequency,
            instasell_scale_factor,
            instasell_estimated_true_volume: Frac::new(self.total_sell_moving_week_activity, 1),
            pattern_detection_confidence,
            delta_sequences,
            pattern_details,
        }
    }
}

/// A valid state's accumulators all fit the ranges the finalizer's
/// arithmetic needs.
proof fn lemma_state_numeric_bounds(m: StateModel)
    requires
        m.wf(),
    ensures
        m.sum_instabuy_price_milli <= 0x1_0000_0000_0000_0000_0000_0000_0000,
        m.sum_instasell_price_milli <= 0x1_0000_0000_0000_0000_0000_0000_0000,
        m.total_new_demand_offers <= 0x1_0000_0000_0000_0000_0000_0000_0000,
        m.total_new_demand_offer_amount <= 0x1_0000_0000_0000_0000_0000_0000_0000,
        m.total_new_supply_offers <= 0x1_0000_0000_0000_0000_0000_0000_0000,
        m.total_new_supply_offer_amount <= 0x1_0000_0000_0000_0000_0000_0000_0000,
        m.player_instabuy_event_count <= 0x1_0000_0000_0000_0000_0000_0000_0000,
        m.player_instabuy_volume_total <= 0x1_0000_0000_0000_0000_0000_0000_0000,
        m.player_instasell_event_count <= 0x1_0000_0000_0000_0000_0000_0000_0000,
        m.player_instasell_volume_total <= 0x1_0000_0000_0000_0000_0000_0000_0000,
        m.total_buy_moving_week_activity <= 0x1_0000_0000_0000_0000_0000_0000_0000,
        m.total_sell_moving_week_activity <= 0x1_0000_0000_0000_0000_0000_0000_0000,
        m.windows_processed <= 0x1_0000_0000_0000_0000_0000_0000_0000,
{
    assert(m.windows_processed * crate::state::window_sum_limit() <= 0x100_0000_0000
        * crate::state::window_sum_limit()) by (nonlinear_arith)
        requires
            0 <= m.windows_processed <= 0x100_0000_0000,
    ;
    assert(m.windows_processed * crate::snapshot::LIST_LIMIT <= 0x100_0000_0000
        * crate::snapshot::LIST_LIMIT) by (nonlinear_arith)
        requires
            0 <= m.windows_processed <= 0x100_0000_0000,
    ;
    assert(m.windows_processed * crate::snapshot::AMOUNT_LIMIT <= 0x100_0000_0000
        * crate::snapshot::AMOUNT_LIMIT) by (nonlinear_arith)
        requires
            0 <= m.windows_processed <= 0x100_0000_0000,
    ;
    assert(m.snapshot_count * crate::snapshot::AMOUNT_LIMIT <= 0x100_0000_0000
        * crate::snapshot::AMOUNT_LIMIT) by (nonlinear_arith)
        requires
            0 <= m.snapshot_count <= 0x100_0000_0000,
    ;
}

/// Builds the diagnostic scale factor of one side.
fn make_scale(volume: i128, activity: i128, has_pattern: bool) -> (r: Frac)
    requires
        0 <= volume <= 0x1_0000_0000_0000_0000_0000_0000_0000,
        0 <= activity <= 0x1_0000_0000_0000_0000_0000_0000_0000,
    ensures
        r == scale_of(volume as int, activity as int, has_pattern),
        r.wf(),
{
    if !has_pattern || activity <= 0 || 10 * volume >= 7 * activity {
        Frac::new(1, 1)
    } else if volume == 0 {
        Frac::new(2, 1)
    } else {
        let milli = 1000 * activity / volume;
        proof {
            vstd::arithmetic::div_mod::lemma_div_pos_is_pos(1000 * activity as int, volume as int);
        }
        let clamped_milli: i128 = if milli < 1000 {
            1000
        } else if milli > 2000 {
            2000
        } else {
            milli
        };
        Frac::new(clamped_milli, 1000)
    }
}

} // verus!
