//! Incremental order-book diffing and periodic-pattern detection for
//! per-entity market snapshots.
//!
//! The library ingests a time series of per-entity order-book snapshots
//! (price levels, quoted prices, cumulative traded-volume counters) and
//! produces incremental trading-activity statistics together with a
//! best-effort estimate of a periodic transaction pattern hidden in the
//! coarse counters.
//!
//! All quantities are integers: prices arrive already quantized to
//! thousandths of a coin, and every averaged output is reported as an
//! exact fraction (`Frac`) so that no floating-point arithmetic is ever
//! needed inside the verified core.
use vstd::prelude::*;

pub mod diff;
pub mod engine;
pub mod finalize;
pub mod laws;
pub mod frac;
pub mod fuse;
pub mod legacy;
pub mod patterns;
pub mod rhythm;
pub mod seqsim;
pub mod snapshot;
pub mod state;
pub mod store;
pub mod util;
pub mod velocity;

verus! {

} // verus!
