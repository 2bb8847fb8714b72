//! Snapshot data model.
//!
//! A snapshot describes one entity's order book at one poll tick: the best
//! quoted prices, the two order lists (demand and supply), and two
//! cumulative traded-volume counters maintained server-side over a trailing
//! period.  Prices arrive already quantized to thousandths of a coin, both
//! as the stable integer key of a price level and as the quoted best
//! prices, so the core works on integers only.
use vstd::prelude::*;

verus! {

/// Largest magnitude accepted for any amount, order count, cumulative
/// counter or milli-price carried by a snapshot.  The bound is far above
/// anything the domain produces and exists so that every sum the engine
/// forms provably fits its machine integer.
pub const AMOUNT_LIMIT: i64 = 0x400_0000_0000;

/// Largest accepted length of one order list.
pub const LIST_LIMIT: usize = 0x1_0000;

/// Largest accepted timestamp, in seconds since the epoch.
pub const TS_LIMIT: u64 = 0x100_0000_0000;

/// Largest number of snapshots one entity state accumulates before the
/// caller must finalize and re-arm the window.
pub const TICK_LIMIT: u64 = 0x100_0000_0000;

/// One aggregated price level of an order list: the quantity offered at
/// this level, the level's stable integer price key (thousandths of a
/// coin), and the number of distinct orders aggregated there.
#[derive(Clone, Copy, Debug, PartialEq, Eq, Structural)]
pub struct OrderLevel {
    pub amount: i64,
    pub price_key: u64,
    pub order_count: i64,
}

impl OrderLevel {
    /// Quantities of a level are non-negative and bounded.
    pub open spec fn wf(self) -> bool {
        &&& 0 <= self.amount <= AMOUNT_LIMIT
        &&& 0 <= self.order_count <= AMOUNT_LIMIT
    }
}

/// Every level well formed and the list short enough that its sums fit.
pub open spec fn levels_wf(s: Seq<OrderLevel>) -> bool {
    &&& s.len() <= LIST_LIMIT
    &&& forall|i: int| 0 <= i < s.len() ==> #[trigger] s[i].wf()
}

/// The mathematical content of a snapshot.
pub ghost struct SnapshotModel {
    /// Best instabuy price, thousandths of a coin.
    pub buy_price_milli: int,
    /// Best instasell price, thousandths of a coin.
    pub sell_price_milli: int,
    /// Demand-side order list, best price first.
    pub buy_orders: Seq<OrderLevel>,
    /// Supply-side order list, best price first.
    pub sell_orders: Seq<OrderLevel>,
    /// Cumulative volume bought over the trailing period.
    pub buy_moving_week: int,
    /// Cumulative volume sold over the trailing period.
    pub sell_moving_week: int,
}

impl SnapshotModel {
    pub open spec fn wf(self) -> bool {
        &&& 0 <= self.buy_price_milli <= AMOUNT_LIMIT
        &&& 0 <= self.sell_price_milli <= AMOUNT_LIMIT
        &&& 0 <= self.buy_moving_week <= AMOUNT_LIMIT
        &&& 0 <= self.sell_moving_week <= AMOUNT_LIMIT
        &&& levels_wf(self.buy_orders)
        &&& levels_wf(self.sell_orders)
    }
}

/// One entity's order-book snapshot at one poll tick.
///
/// The demand/supply mapping is fixed here once for the whole engine:
/// `buy_orders` is the demand side that instabuy events consume, and
/// `sell_orders` is the supply side that instasell events consume.
#[derive(Debug)]
pub struct Snapshot {
    pub buy_price_milli: i64,
    pub sell_price_milli: i64,
    pub buy_orders: Vec<OrderLevel>,
    pub sell_orders: Vec<OrderLevel>,
    pub buy_moving_week: i64,
    pub sell_moving_week: i64,
}

impl View for Snapshot {
    type V = SnapshotModel;

    open spec fn view(&self) -> SnapshotModel {
        SnapshotModel {
            buy_price_milli: self.buy_price_milli as int,
            sell_price_milli: self.sell_price_milli as int,
            buy_orders: self.buy_orders@,
            sell_orders: self.sell_orders@,
            buy_moving_week: self.buy_moving_week as int,
            sell_moving_week: self.sell_moving_week as int,
        }
    }
}

impl Snapshot {
    pub open spec fn wf(self) -> bool {
        self@.wf()
    }

    /// An exact copy, pinned field by field so that callers know the
    /// copy carries the same model as its source.
    pub fn duplicate(&self) -> (r: Snapshot)
        ensures
            r@ == self@,
    {
        let r = Snapshot {
            buy_price_milli: self.buy_price_milli,
            sell_price_milli: self.sell_price_milli,
            buy_orders: copy_levels(&self.buy_orders),
            sell_orders: copy_levels(&self.sell_orders),
            buy_moving_week: self.buy_moving_week,
            sell_moving_week: self.sell_moving_week,
        };
        assert(r@ == self@);
        r
    }

    /// Checks validity of every field, so that unverified callers can
    /// screen arbitrary input before handing it to the engine.
    pub fn is_well_formed(&self) -> (r: bool)
        ensures
            r == self.wf(),
    {
        let price_ok = 0 <= self.buy_price_milli && self.buy_price_milli <= AMOUNT_LIMIT
            && 0 <= self.sell_price_milli && self.sell_price_milli <= AMOUNT_LIMIT;
        let counter_ok = 0 <= self.buy_moving_week && self.buy_moving_week <= AMOUNT_LIMIT
            && 0 <= self.sell_moving_week && self.sell_moving_week <= AMOUNT_LIMIT;
        price_ok && counter_ok && levels_well_formed(&self.buy_orders)
            && levels_well_formed(&self.sell_orders)
    }
}

/// An element-by-element copy of an order list.
pub fn copy_levels(levels: &Vec<OrderLevel>) -> (r: Vec<OrderLevel>)
    ensures
        r@ == levels@,
{
    let mut r: Vec<OrderLevel> = Vec::new();
    let mut i: usize = 0;
    while i < levels.len()
        invariant
            0 <= i <= levels@.len(),
            r@ == levels@.take(i as int),
        decreases levels@.len() - i,
    {
        r.push(levels[i]);
        assert(r@ =~= levels@.take(i as int + 1));
        i += 1;
    }
    assert(levels@.take(levels@.len() as int) =~= levels@);
    r
}

/// Checks one order list against `levels_wf`.
pub fn levels_well_formed(levels: &Vec<OrderLevel>) -> (r: bool)
    ensures
        r == levels_wf(levels@),
{
    if levels.len() > LIST_LIMIT {
        return false;
    }
    let mut i: usize = 0;
    while i < levels.len()
        invariant
            0 <= i <= levels@.len(),
            levels@.len() <= LIST_LIMIT,
            forall|j: int| 0 <= j < i ==> #[trigger] levels@[j].wf(),
        decreases levels@.len() - i,
    {
        let lv = levels[i];
        if !(0 <= lv.amount && lv.amount <= AMOUNT_LIMIT && 0 <= lv.order_count
            && lv.order_count <= AMOUNT_LIMIT) {
            assert(!levels@[i as int].wf());
            return false;
        }
        i += 1;
    }
    true
}

} // verus!
