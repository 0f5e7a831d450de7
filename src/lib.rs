//! Per-thread accounting samples aggregated into running-mean counters,
//! keyed by thread name, with a sampling run bounded by an epoch clock.

pub mod counter;
pub mod error;
pub mod stats;
pub mod registry;
pub mod progress;
pub mod sampling;
