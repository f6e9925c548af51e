//! Enhanced invocation metrics for a serverless function runtime extension.
//!
//! The library records invocation lifecycle measurements (counts, durations,
//! billed duration, memory usage) as distribution samples in an in-process
//! aggregator, and derives a monetary cost estimate per invocation from
//! billing data and the hardware architecture. Emission hangs on a single
//! configuration flag, and no operation ever reports a failure to its caller:
//! telemetry is best effort by design.
//!
//! All scalar samples are fixed-point decimals with twelve fractional digits
//! ([`fixed::Fixed`]), which keeps the arithmetic exact and the contracts free
//! of floating point.

pub mod aggregator;
pub mod config;
pub mod constants;
pub mod cost;
pub mod events;
pub mod fixed;
pub mod lambda;
pub mod metric;
