//! Engine facade.
//!
//! An explicit store of per-entity states, owned by the caller: no
//! ambient global, so independent engines can run side by side.  The
//! engine exposes exactly two operations: `ingest` one entity snapshot,
//! and `finalize_and_reset` to emit every entity's analysis record and
//! re-arm for the next reporting window.
use vstd::prelude::*;

use crate::finalize::{analyze, result_wf, AnalysisResult};
use crate::snapshot::{Snapshot, TICK_LIMIT, TS_LIMIT};
use crate::state::{init_model, tick, ProductMetricsState, StateModel};

verus! {

/// The engine's model: the entity table in insertion order.
pub type EngineModel = Seq<(Seq<char>, StateModel)>;

/// An explicit store of per-entity rolling states.
pub struct MetricsEngine {
    pub entries: Vec<(String, ProductMetricsState)>,
}

impl View for MetricsEngine {
    type V = EngineModel;

    open spec fn view(&self) -> EngineModel {
        Seq::new(self.entries@.len(), |i: int| (self.entries@[i].0@, self.entries@[i].1@))
    }
}

/// The first entry from `j` on keyed by `id`, or the table size when
/// the entity is unknown.
pub open spec fn find_entry(m: EngineModel, id: Seq<char>, j: int) -> int
    decreases m.len() - j,
{
    if j < 0 || j >= m.len() {
        m.len() as int
    } else if m[j].0 == id {
        j
    } else {
        find_entry(m, id, j + 1)
    }
}

/// An entry search lands between its start and the table size.
pub proof fn lemma_find_entry_range(m: EngineModel, id: Seq<char>, j: int)
    requires
        0 <= j <= m.len(),
    ensures
        j <= find_entry(m, id, j) <= m.len(),
        find_entry(m, id, j) < m.len() ==> m[find_entry(m, id, j)].0 == id,
    decreases m.len() - j,
{
    if j < m.len() && m[j].0 != id {
        lemma_find_entry_range(m, id, j + 1);
    }
}

/// What one ingested snapshot does to the engine model: a known
/// entity's state takes a `tick`, an unknown entity is appended fresh,
/// and a state whose window has hit the tick limit is left unchanged
/// until the caller finalizes and re-arms.
pub open spec fn engine_ingested(m: EngineModel, id: Seq<char>, s: crate::snapshot::SnapshotModel, now: int) -> EngineModel {
    let f = find_entry(m, id, 0);
    if f < m.len() {
        if m[f].1.snapshot_count < TICK_LIMIT {
            m.update(f, (m[f].0, tick(m[f].1, s, now)))
        } else {
            m
        }
    } else {
        m.push((id, init_model(s, now)))
    }
}

impl MetricsEngine {
    /// Every state valid, and no entity listed twice.
    pub open spec fn wf(self) -> bool {
        &&& forall|i: int| 0 <= i < self@.len() ==> (#[trigger] self@[i]).1.wf()
        &&& forall|i: int, j: int| 0 <= i < j < self@.len() ==> self@[i].0 != self@[j].0
    }

    /// An empty engine.
    pub fn new() -> (r: MetricsEngine)
        ensures
            r.wf(),
            r@ == Seq::<(Seq<char>, StateModel)>::empty(),
    {
        let r = MetricsEngine { entries: Vec::new() };
        proof {
            assert(r@ =~= Seq::<(Seq<char>, StateModel)>::empty());
        }
        r
    }

    /// Ingests one entity snapshot: diffs it into the entity's state,
    /// or creates the state if this is the entity's first observation.
    pub fn ingest(&mut self, id: String, snapshot: &Snapshot, now: u64)
        requires
            old(self).wf(),
            snapshot.wf(),
            now <= TS_LIMIT,
        ensures
            final(self).wf(),
            final(self)@ == engine_ingested(old(self)@, id@, snapshot@, now as int),
    {
        let ghost m = self@;
        let mut f: usize = 0;
        let mut found = false;
        while !found && f < self.entries.len()
            invariant
                self@ == m,
                m.len() == self.entries@.len(),
                0 <= f <= m.len(),
                found ==> f < m.len() && m[f as int].0 == id@,
                found ==> find_entry(m, id@, f as int) == f,
                find_entry(m, id@, 0) == find_entry(m, id@, f as int),
            decreases m.len() - f + (if found {
                0int
            } else {
                1int
            }),
        {
            let e = &self.entries[f];
            if e.0 == id {
                found = true;
            } else {
                f += 1;
            }
        }
        assert(f as int == find_entry(m, id@, 0));
        if f < self.entries.len() {
            let mut e = self.entries.remove(f);
            if e.1.snapshot_count < TICK_LIMIT {
                e.1.update(snapshot, now);
            }
            self.entries.insert(f, e);
            proof {
                assert(self@ =~~= engine_ingested(m, id@, snapshot@, now as int));
                assert forall|i: int, j: int|
                    0 <= i < j < self@.len() implies self@[i].0 != self@[j].0 by {
                    assert(self@[i].0 == m[i].0 && self@[j].0 == m[j].0);
                }
            }
        } else {
            let st = ProductMetricsState::new(snapshot, now);
            self.entries.push((id, st));
            proof {
                assert(self@ =~~= engine_ingested(m, id@, snapshot@, now as int));
                assert forall|i: int, j: int|
                    0 <= i < j < self@.len() implies self@[i].0 != self@[j].0 by {
                    if j < m.len() {
                        assert(self@[i].0 == m[i].0 && self@[j].0 == m[j].0);
                    } else {
                        lemma_find_entry_all(m, id@, 0);
                        assert(self@[i].0 == m[i].0);
                    }
                }
            }
        }
    }

    /// Emits one analysis record per entity seen this window, in
    /// insertion order, and clears the engine for the next window.
    pub fn finalize_and_reset(&mut self) -> (r: Vec<AnalysisResult>)
        requires
            old(self).wf(),
        ensures
            final(self).wf(),
            final(self)@ == Seq::<(Seq<char>, StateModel)>::empty(),
            r@.len() == old(self)@.len(),
            forall|j: int|
                0 <= j < r@.len() ==> (#[trigger] r@[j])@ == analyze(
                    old(self)@[j].1,
                    old(self)@[j].0,
                ) && result_wf(r@[j]@),
    {
        let ghost m = self@;
        let mut out: Vec<AnalysisResult> = Vec::new();
        while self.entries.len() > 0
            invariant
                out@.len() + self.entries@.len() == m.len(),
                forall|i: int|
                    0 <= i < self.entries@.len() ==> (#[trigger] self.entries@[i].1)@ == m[out@.len()
                        + i].1 && self.entries@[i].0@ == m[out@.len() + i].0
                        && self.entries@[i].1.wf(),
                forall|j: int|
                    0 <= j < out@.len() ==> (#[trigger] out@[j])@ == analyze(m[j].1, m[j].0)
                        && result_wf(out@[j]@),
            decreases self.entries@.len(),
        {
            let e = self.entries.remove(0);
            let rec = e.1.finalize_with_sequences(e.0);
            out.push(rec);
        }
        proof {
            assert(self@ =~= Seq::<(Seq<char>, StateModel)>::empty());
        }
        out
    }
}

/// When the search runs off the table, no entry carries the key.
pub proof fn lemma_find_entry_all(m: EngineModel, id: Seq<char>, j: int)
    requires
        0 <= j,
        find_entry(m, id, j) == m.len(),
    ensures
        forall|i: int| j <= i < m.len() ==> (#[trigger] m[i]).0 != id,
    decreases m.len() - j,
{
    if j < m.len() {
        lemma_find_entry_all(m, id, j + 1);
    }
}

} // verus!
