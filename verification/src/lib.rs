//! Collection engine for an accelerator-device metrics exporter.
//!
//! The library holds the verified core of the exporter: the mapping from
//! raw telemetry to named, labeled gauge writes, the per-cycle aggregation
//! policy that tolerates partial failure, and the drift-corrected schedule
//! that decides when the next cycle starts. Transport, the metrics sink and
//! the clock live outside the library and hand it plain values.

pub mod collector;
pub mod schedule;
