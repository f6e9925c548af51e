//! The report-log value object the platform's log parser hands to the
//! recorder.

use vstd::prelude::*;

use crate::fixed::Fixed;

verus! {

/// Measurements parsed from one platform report log line. Durations arrive
/// in milliseconds; the memory figures are whole megabytes.
///
/// `init_duration_ms` and `restore_duration_ms` are carried but not consumed
/// by the report batch: cold-start time is emitted through its own operation,
/// and restore time is not emitted at all.
#[derive(Clone, Copy, PartialEq, Eq, Structural, Debug)]
pub struct ReportMetrics {
    /// Wall-clock execution duration, in milliseconds.
    pub duration_ms: Fixed,
    /// Milliseconds billed by the platform.
    pub billed_duration_ms: u64,
    /// Peak memory observed, in MB.
    pub max_memory_used_mb: u64,
    /// Configured memory allocation, in MB.
    pub memory_size_mb: u64,
    /// Cold-start initialization time, in milliseconds, when the invocation
    /// had one.
    pub init_duration_ms: Option<Fixed>,
    /// Restore time, in milliseconds, when the platform reported one.
    pub restore_duration_ms: Option<Fixed>,
}

} // verus!
