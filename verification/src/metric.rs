//! Metric records: the fixed set of metric identifiers, the per-call record,
//! and the aggregator's insertion error.

use vstd::prelude::*;

use crate::fixed::Fixed;

verus! {

/// The fixed set of metric identifiers this library emits. Each maps to one
/// wire name (see [`MetricName::as_str`]); the set is closed, which makes the
/// aggregator's key space finite and every dispatch on it exhaustive.
#[derive(Clone, Copy, PartialEq, Eq, Structural, Debug)]
pub enum MetricName {
    /// One sample of `1` per invocation.
    Invocations,
    /// One sample of `1` per failed invocation.
    Errors,
    /// One sample of `1` per timed-out invocation.
    Timeouts,
    /// Cold-start initialization time, in seconds.
    InitDuration,
    /// Runtime phase duration, in milliseconds.
    RuntimeDuration,
    /// Post-runtime phase duration, in milliseconds.
    PostRuntimeDuration,
    /// Wall-clock execution duration from the report, in seconds.
    Duration,
    /// Billed duration from the report, in seconds.
    BilledDuration,
    /// Peak memory observed, in MB.
    MaxMemoryUsed,
    /// Configured memory allocation, in MB.
    MemorySize,
    /// Estimated cost of the invocation, in USD.
    EstimatedCost,
}

impl MetricName {
    /// The wire name of this metric as a character sequence.
    pub open spec fn spec_wire_name(self) -> Seq<char> {
        match self {
            MetricName::Invocations => "aws.lambda.enhanced.invocations"@,
            MetricName::Errors => "aws.lambda.enhanced.errors"@,
            MetricName::Timeouts => "aws.lambda.enhanced.timeouts"@,
            MetricName::InitDuration => "aws.lambda.enhanced.init_duration"@,
            MetricName::RuntimeDuration => "aws.lambda.enhanced.runtime_duration"@,
            MetricName::PostRuntimeDuration => "aws.lambda.enhanced.post_runtime_duration"@,
            MetricName::Duration => "aws.lambda.enhanced.duration"@,
            MetricName::BilledDuration => "aws.lambda.enhanced.billed_duration"@,
            MetricName::MaxMemoryUsed => "aws.lambda.enhanced.max_memory_used"@,
            MetricName::MemorySize => "aws.lambda.enhanced.memorysize"@,
            MetricName::EstimatedCost => "aws.lambda.enhanced.estimated_cost"@,
        }
    }

    /// The wire name of this metric, the identifier the backend expects.
    pub fn as_str(&self) -> (r: &'static str)
        ensures
            r@ == self.spec_wire_name(),
    {
        match self {
            MetricName::Invocations => "aws.lambda.enhanced.invocations",
            MetricName::Errors => "aws.lambda.enhanced.errors",
            MetricName::Timeouts => "aws.lambda.enhanced.timeouts",
            MetricName::InitDuration => "aws.lambda.enhanced.init_duration",
            MetricName::RuntimeDuration => "aws.lambda.enhanced.runtime_duration",
            MetricName::PostRuntimeDuration => "aws.lambda.enhanced.post_runtime_duration",
            MetricName::Duration => "aws.lambda.enhanced.duration",
            MetricName::BilledDuration => "aws.lambda.enhanced.billed_duration",
            MetricName::MaxMemoryUsed => "aws.lambda.enhanced.max_memory_used",
            MetricName::MemorySize => "aws.lambda.enhanced.memorysize",
            MetricName::EstimatedCost => "aws.lambda.enhanced.estimated_cost",
        }
    }
}

/// One distribution sample under a metric identifier, built per call and
/// consumed by the aggregator. Samples always carry the aggregator's default
/// tags and no extra ones, so the record holds no tag field.
#[derive(Clone, Copy, PartialEq, Eq, Structural, Debug)]
pub struct Metric {
    pub name: MetricName,
    pub value: Fixed,
}

impl Metric {
    /// A record of one sample of `value` under `name`.
    pub fn new(name: MetricName, value: Fixed) -> (m: Metric)
        ensures
            m.name == name,
            m.value == value,
    {
        Metric { name, value }
    }
}

/// The aggregator's insertion failure: it tracks a bounded number of distinct
/// metric identifiers and rejects a sample that would exceed the bound.
#[derive(Clone, Copy, PartialEq, Eq, Structural, Debug)]
pub enum InsertError {
    CardinalityLimitExceeded,
}

} // verus!
