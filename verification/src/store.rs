//! Rolling delta store.
//!
//! A capacity-bounded history of per-tick signals for one entity: the six
//! signed per-tick deltas, the two inferred-consumption histories, and the
//! snapshot timestamps.  All sequences stay index-aligned; the delta at
//! index `i` belongs to the tick-pair ending at timestamp index `i + 1`,
//! so the timestamp sequence is always one entry longer.  When the store
//! is full the oldest tick-pair is evicted first-in first-out.
use vstd::prelude::*;

use crate::snapshot::TS_LIMIT;

verus! {

/// Capacity of the rolling window, in tick-pairs.
pub const STORE_CAP: usize = 180;

/// Largest magnitude of any stored delta.  Per-tick sums stay far below
/// this bound, and the detectors rely on it to keep their arithmetic in
/// range.
pub const DELTA_LIMIT: i64 = 0x1000_0000_0000_0000;

/// The signals of one tick-pair, ready to append to the store.
#[derive(Clone, Copy, Debug, PartialEq, Eq, Structural)]
pub struct TickDeltas {
    pub buy_mw_delta: i64,
    pub sell_mw_delta: i64,
    pub buy_orders_delta: i64,
    pub sell_orders_delta: i64,
    pub buy_amount_delta: i64,
    pub sell_amount_delta: i64,
    pub inferred_buy: i64,
    pub inferred_sell: i64,
}

impl TickDeltas {
    /// Every signal bounded, the inferred volumes non-negative.
    pub open spec fn wf(self) -> bool {
        &&& -DELTA_LIMIT <= self.buy_mw_delta <= DELTA_LIMIT
        &&& -DELTA_LIMIT <= self.sell_mw_delta <= DELTA_LIMIT
        &&& -DELTA_LIMIT <= self.buy_orders_delta <= DELTA_LIMIT
        &&& -DELTA_LIMIT <= self.sell_orders_delta <= DELTA_LIMIT
        &&& -DELTA_LIMIT <= self.buy_amount_delta <= DELTA_LIMIT
        &&& -DELTA_LIMIT <= self.sell_amount_delta <= DELTA_LIMIT
        &&& 0 <= self.inferred_buy <= DELTA_LIMIT
        &&& 0 <= self.inferred_sell <= DELTA_LIMIT
    }
}

/// The mathematical content of the store: nine aligned sequences.
pub ghost struct StoreModel {
    pub buy_mw_deltas: Seq<i64>,
    pub sell_mw_deltas: Seq<i64>,
    pub buy_orders_deltas: Seq<i64>,
    pub sell_orders_deltas: Seq<i64>,
    pub buy_amount_deltas: Seq<i64>,
    pub sell_amount_deltas: Seq<i64>,
    pub inferred_buy_volume: Seq<i64>,
    pub inferred_sell_volume: Seq<i64>,
    pub timestamps: Seq<u64>,
}

/// All elements of a delta sequence bounded in magnitude.
pub open spec fn deltas_bounded(s: Seq<i64>) -> bool {
    forall|i: int| 0 <= i < s.len() ==> -DELTA_LIMIT <= #[trigger] s[i] <= DELTA_LIMIT
}

/// All elements non-negative and bounded.
pub open spec fn volumes_bounded(s: Seq<i64>) -> bool {
    forall|i: int| 0 <= i < s.len() ==> 0 <= #[trigger] s[i] <= DELTA_LIMIT
}

/// All timestamps bounded.
pub open spec fn timestamps_bounded(s: Seq<u64>) -> bool {
    forall|i: int| 0 <= i < s.len() ==> #[trigger] s[i] <= TS_LIMIT
}

impl StoreModel {
    /// Alignment, capacity and element bounds of a valid store.
    pub open spec fn wf(self) -> bool {
        &&& self.sell_mw_deltas.len() == self.buy_mw_deltas.len()
        &&& self.buy_orders_deltas.len() == self.buy_mw_deltas.len()
        &&& self.sell_orders_deltas.len() == self.buy_mw_deltas.len()
        &&& self.buy_amount_deltas.len() == self.buy_mw_deltas.len()
        &&& self.sell_amount_deltas.len() == self.buy_mw_deltas.len()
        &&& self.inferred_buy_volume.len() == self.buy_mw_deltas.len()
        &&& self.inferred_sell_volume.len() == self.buy_mw_deltas.len()
        &&& self.timestamps.len() == self.buy_mw_deltas.len() + 1
        &&& self.buy_mw_deltas.len() <= STORE_CAP
        &&& deltas_bounded(self.buy_mw_deltas)
        &&& deltas_bounded(self.sell_mw_deltas)
        &&& deltas_bounded(self.buy_orders_deltas)
        &&& deltas_bounded(self.sell_orders_deltas)
        &&& deltas_bounded(self.buy_amount_deltas)
        &&& deltas_bounded(self.sell_amount_deltas)
        &&& volumes_bounded(self.inferred_buy_volume)
        &&& volumes_bounded(self.inferred_sell_volume)
        &&& timestamps_bounded(self.timestamps)
    }
}

/// Appends to a capacity-bounded sequence, evicting the oldest entry
/// once the capacity is reached.
pub open spec fn push_evict<T>(s: Seq<T>, v: T, cap: int) -> Seq<T> {
    if s.len() < cap {
        s.push(v)
    } else {
        s.subrange(1, s.len() as int).push(v)
    }
}

/// What one appended tick-pair does to the store model.
pub open spec fn store_pushed(m: StoreModel, t: TickDeltas, ts: u64) -> StoreModel {
    StoreModel {
        buy_mw_deltas: push_evict(m.buy_mw_deltas, t.buy_mw_delta, STORE_CAP as int),
        sell_mw_deltas: push_evict(m.sell_mw_deltas, t.sell_mw_delta, STORE_CAP as int),
        buy_orders_deltas: push_evict(m.buy_orders_deltas, t.buy_orders_delta, STORE_CAP as int),
        sell_orders_deltas: push_evict(m.sell_orders_deltas, t.sell_orders_delta, STORE_CAP as int),
        buy_amount_deltas: push_evict(m.buy_amount_deltas, t.buy_amount_delta, STORE_CAP as int),
        sell_amount_deltas: push_evict(m.sell_amount_deltas, t.sell_amount_delta, STORE_CAP as int),
        inferred_buy_volume: push_evict(m.inferred_buy_volume, t.inferred_buy, STORE_CAP as int),
        inferred_sell_volume: push_evict(m.inferred_sell_volume, t.inferred_sell, STORE_CAP as int),
        timestamps: push_evict(m.timestamps, ts, STORE_CAP as int + 1),
    }
}

/// Rolling, capacity-bounded history of per-tick deltas, inferred
/// volumes and timestamps for one entity.
#[derive(Debug)]
pub struct DeltaStore {
    pub buy_mw_deltas: Vec<i64>,
    pub sell_mw_deltas: Vec<i64>,
    pub buy_orders_deltas: Vec<i64>,
    pub sell_orders_deltas: Vec<i64>,
    pub buy_amount_deltas: Vec<i64>,
    pub sell_amount_deltas: Vec<i64>,
    pub inferred_buy_volume: Vec<i64>,
    pub inferred_sell_volume: Vec<i64>,
    pub timestamps: Vec<u64>,
}

impl View for DeltaStore {
    type V = StoreModel;

    open spec fn view(&self) -> StoreModel {
        StoreModel {
            buy_mw_deltas: self.buy_mw_deltas@,
            sell_mw_deltas: self.sell_mw_deltas@,
            buy_orders_deltas: self.buy_orders_deltas@,
            sell_orders_deltas: self.sell_orders_deltas@,
            buy_amount_deltas: self.buy_amount_deltas@,
            sell_amount_deltas: self.sell_amount_deltas@,
            inferred_buy_volume: self.inferred_buy_volume@,
            inferred_sell_volume: self.inferred_sell_volume@,
            timestamps: self.timestamps@,
        }
    }
}

impl DeltaStore {
    pub open spec fn wf(self) -> bool {
        self@.wf()
    }

    /// An empty store whose only timestamp is the first snapshot's.
    pub fn new(first_ts: u64) -> (r: DeltaStore)
        requires
            first_ts <= TS_LIMIT,
        ensures
            r.wf(),
            r@.buy_mw_deltas == Seq::<i64>::empty(),
            r@.sell_mw_deltas == Seq::<i64>::empty(),
            r@.buy_orders_deltas == Seq::<i64>::empty(),
            r@.sell_orders_deltas == Seq::<i64>::empty(),
            r@.buy_amount_deltas == Seq::<i64>::empty(),
            r@.sell_amount_deltas == Seq::<i64>::empty(),
            r@.inferred_buy_volume == Seq::<i64>::empty(),
            r@.inferred_sell_volume == Seq::<i64>::empty(),
            r@.timestamps == seq![first_ts],
    {
        let mut timestamps: Vec<u64> = Vec::new();
        timestamps.push(first_ts);
        assert(timestamps@ =~= seq![first_ts]);
        DeltaStore {
            buy_mw_deltas: Vec::new(),
            sell_mw_deltas: Vec::new(),
            buy_orders_deltas: Vec::new(),
            sell_orders_deltas: Vec::new(),
            buy_amount_deltas: Vec::new(),
            sell_amount_deltas: Vec::new(),
            inferred_buy_volume: Vec::new(),
            inferred_sell_volume: Vec::new(),
            timestamps,
        }
    }

    /// Appends one tick-pair, evicting the oldest first-in first-out once
    /// the capacity is reached, keeping all sequences index-aligned.
    pub fn push_tick(&mut self, t: TickDeltas, ts: u64)
        requires
            old(self).wf(),
            t.wf(),
            ts <= TS_LIMIT,
        ensures
            final(self).wf(),
            final(self)@ == store_pushed(old(self)@, t, ts),
    {
        let ghost pre = self@;
        if self.buy_mw_deltas.len() == STORE_CAP {
            self.buy_mw_deltas.remove(0);
            self.sell_mw_deltas.remove(0);
            self.buy_orders_deltas.remove(0);
            self.sell_orders_deltas.remove(0);
            self.buy_amount_deltas.remove(0);
            self.sell_amount_deltas.remove(0);
            self.inferred_buy_volume.remove(0);
            self.inferred_sell_volume.remove(0);
            self.timestamps.remove(0);
        }
        self.buy_mw_deltas.push(t.buy_mw_delta);
        self.sell_mw_deltas.push(t.sell_mw_delta);
        self.buy_orders_deltas.push(t.buy_orders_delta);
        self.sell_orders_deltas.push(t.sell_orders_delta);
        self.buy_amount_deltas.push(t.buy_amount_delta);
        self.sell_amount_deltas.push(t.sell_amount_delta);
        self.inferred_buy_volume.push(t.inferred_buy);
        self.inferred_sell_volume.push(t.inferred_sell);
        self.timestamps.push(ts);
        proof {
            let post = store_pushed(pre, t, ts);
            assert(self@.buy_mw_deltas =~= post.buy_mw_deltas);
            assert(self@.sell_mw_deltas =~= post.sell_mw_deltas);
            assert(self@.buy_orders_deltas =~= post.buy_orders_deltas);
            assert(self@.sell_orders_deltas =~= post.sell_orders_deltas);
            assert(self@.buy_amount_deltas =~= post.buy_amount_deltas);
            assert(self@.sell_amount_deltas =~= post.sell_amount_deltas);
            assert(self@.inferred_buy_volume =~= post.inferred_buy_volume);
            assert(self@.inferred_sell_volume =~= post.inferred_sell_volume);
            assert(self@.timestamps =~= post.timestamps);
        }
    }
}

} // verus!
