//! The metrics recorder: one method per invocation lifecycle event.
//!
//! Every operation checks `config.enhanced_metrics`: when the flag is
//! off, nothing is emitted and the aggregator is left untouched. When it is
//! on, each operation builds its metric records and inserts them; an
//! insertion failure is swallowed, never reported to the caller, so metrics
//! emission cannot affect the invocation it instruments.

use vstd::prelude::*;

use crate::aggregator::{after_insert, sketch_with, Aggregator, SketchModel};
use crate::config::Config;
use crate::constants::{MS_PER_SEC, PICOS_PER_MS, PICOS_PER_UNIT};
use crate::cost::{estimate_cost_usd, spec_cost_picos, Arch};
use crate::events::ReportMetrics;
use crate::fixed::Fixed;
use crate::metric::{Metric, MetricName};

verus! {

/// The aggregator's contents after the report batch: five samples inserted
/// in turn — execution duration in seconds, billed duration in seconds, peak
/// memory in MB, configured memory in MB, and the estimated cost priced for
/// `arch`. Each insertion stands on its own: one rejection neither aborts
/// nor alters the others.
pub open spec fn after_report_inserts(
    m: Map<MetricName, SketchModel>,
    cap: nat,
    report: ReportMetrics,
    arch: Arch,
) -> Map<MetricName, SketchModel> {
    let with_duration = after_insert(
        m,
        cap,
        MetricName::Duration,
        report.duration_ms@ / (MS_PER_SEC as int),
    );
    let with_billed = after_insert(
        with_duration,
        cap,
        MetricName::BilledDuration,
        (report.billed_duration_ms as int) * (PICOS_PER_MS as int),
    );
    let with_max_memory = after_insert(
        with_billed,
        cap,
        MetricName::MaxMemoryUsed,
        (report.max_memory_used_mb as int) * (PICOS_PER_UNIT as int),
    );
    let with_memory_size = after_insert(
        with_max_memory,
        cap,
        MetricName::MemorySize,
        (report.memory_size_mb as int) * (PICOS_PER_UNIT as int),
    );
    after_insert(
        with_memory_size,
        cap,
        MetricName::EstimatedCost,
        spec_cost_picos(report.billed_duration_ms as int, report.memory_size_mb as int, arch),
    )
}

/// The recorder: an exclusive handle to the aggregator plus the read-only
/// configuration snapshot. Callers that share one aggregator across threads
/// hold the recorder behind a lock and enter it one at a time; each method
/// here is one such critical section.
pub struct Lambda {
    pub aggregator: Aggregator,
    pub config: Config,
}

impl Lambda {
    /// Binds an aggregator handle and a configuration snapshot. Pure data
    /// binding: no validation, no side effects.
    pub fn new(aggregator: Aggregator, config: Config) -> (r: Lambda)
        ensures
            r.aggregator == aggregator,
            r.config == config,
    {
        Lambda { aggregator, config }
    }

    /// The recorder is well-formed when its aggregator is.
    pub open spec fn wf(&self) -> bool {
        self.aggregator.wf()
    }

    /// One sample of `1` under `metric_name`, unless enhanced metrics are off; a
    /// rejected insertion is swallowed.
    fn increment_metric(&mut self, metric_name: MetricName)
        requires
            old(self).wf(),
        ensures
            final(self).wf(),
            final(self).config == old(self).config,
            final(self).aggregator.capacity() == old(self).aggregator.capacity(),
            final(self).aggregator@ == (if old(self).config.enhanced_metrics {
                after_insert(
                    old(self).aggregator@,
                    old(self).aggregator.capacity(),
                    metric_name,
                    PICOS_PER_UNIT as int,
                )
            } else {
                old(self).aggregator@
            }),
    {
        if !self.config.enhanced_metrics {
            return;
        }
        let metric = Metric::new(metric_name, Fixed::from_whole(1));
        let _ = self.aggregator.insert(metric);
    }

    /// Counts one invocation, unless enhanced metrics are off.
    pub fn increment_invocation_metric(&mut self)
        requires
            old(self).wf(),
        ensures
            final(self).wf(),
            final(self).config == old(self).config,
            final(self).aggregator.capacity() == old(self).aggregator.capacity(),
            final(self).aggregator@ == (if old(self).config.enhanced_metrics {
                after_insert(
                    old(self).aggregator@,
                    old(self).aggregator.capacity(),
                    MetricName::Invocations,
                    PICOS_PER_UNIT as int,
                )
            } else {
                old(self).aggregator@
            }),
    {
        self.increment_metric(MetricName::Invocations)
    }

    /// Counts one failed invocation, unless enhanced metrics are off.
    pub fn increment_errors_metric(&mut self)
        requires
            old(self).wf(),
        ensures
            final(self).wf(),
            final(self).config == old(self).config,
            final(self).aggregator.capacity() == old(self).aggregator.capacity(),
            final(self).aggregator@ == (if old(self).config.enhanced_metrics {
                after_insert(
                    old(self).aggregator@,
                    old(self).aggregator.capacity(),
                    MetricName::Errors,
                    PICOS_PER_UNIT as int,
                )
            } else {
                old(self).aggregator@
            }),
    {
        self.increment_metric(MetricName::Errors)
    }

    /// Counts one timed-out invocation, unless enhanced metrics are off.
    pub fn increment_timeout_metric(&mut self)
        requires
            old(self).wf(),
        ensures
            final(self).wf(),
            final(self).config == old(self).config,
            final(self).aggregator.capacity() == old(self).aggregator.capacity(),
            final(self).aggregator@ == (if old(self).config.enhanced_metrics {
                after_insert(
                    old(self).aggregator@,
                    old(self).aggregator.capacity(),
                    MetricName::Timeouts,
                    PICOS_PER_UNIT as int,
                )
            } else {
                old(self).aggregator@
            }),
    {
        self.increment_metric(MetricName::Timeouts)
    }

    /// Records the cold-start initialization time. The measurement arrives
    /// in milliseconds and is stored in seconds — the backend expects this
    /// one metric in seconds, unlike the runtime durations.
    pub fn set_init_duration_metric(&mut self, init_duration_ms: Fixed)
        requires
            old(self).wf(),
        ensures
            final(self).wf(),
            final(self).config == old(self).config,
            final(self).aggregator.capacity() == old(self).aggregator.capacity(),
            final(self).aggregator@ == (if old(self).config.enhanced_metrics {
                after_insert(
                    old(self).aggregator@,
                    old(self).aggregator.capacity(),
                    MetricName::InitDuration,
                    init_duration_ms@ / (MS_PER_SEC as int),
                )
            } else {
                old(self).aggregator@
            }),
    {
        if !self.config.enhanced_metrics {
            return;
        }
        let metric = Metric::new(MetricName::InitDuration, init_duration_ms.ms_to_sec());
        let _ = self.aggregator.insert(metric);
    }

    /// Records the runtime phase duration, stored in milliseconds as
    /// measured — the backend expects this value in milliseconds, not
    /// seconds.
    pub fn set_runtime_duration_metric(&mut self, duration_ms: Fixed)
        requires
            old(self).wf(),
        ensures
            final(self).wf(),
            final(self).config == old(self).config,
            final(self).aggregator.capacity() == old(self).aggregator.capacity(),
            final(self).aggregator@ == (if old(self).config.enhanced_metrics {
                after_insert(
                    old(self).aggregator@,
                    old(self).aggregator.capacity(),
                    MetricName::RuntimeDuration,
                    duration_ms@,
                )
            } else {
                old(self).aggregator@
            }),
    {
        if !self.config.enhanced_metrics {
            return;
        }
        let metric = Metric::new(MetricName::RuntimeDuration, duration_ms);
        let _ = self.aggregator.insert(metric);
    }

    /// Records the post-runtime phase duration, stored in milliseconds as
    /// measured — the backend expects this value in milliseconds, not
    /// seconds.
    pub fn set_post_runtime_duration_metric(&mut self, duration_ms: Fixed)
        requires
            old(self).wf(),
        ensures
            final(self).wf(),
            final(self).config == old(self).config,
            final(self).aggregator.capacity() == old(self).aggregator.capacity(),
            final(self).aggregator@ == (if old(self).config.enhanced_metrics {
                after_insert(
                    old(self).aggregator@,
                    old(self).aggregator.capacity(),
                    MetricName::PostRuntimeDuration,
                    duration_ms@,
                )
            } else {
                old(self).aggregator@
            }),
    {
        if !self.config.enhanced_metrics {
            return;
        }
        let metric = Metric::new(MetricName::PostRuntimeDuration, duration_ms);
        let _ = self.aggregator.insert(metric);
    }

    /// Emits the five report-derived samples in one batch, unless enhanced
    /// metrics are off. Each rejected insertion is swallowed on its own and the rest
    /// of the batch still goes through, exactly as [`after_report_inserts`]
    /// says.
    ///
    /// The product of billed duration and memory size must be representable
    /// in 64 bits so that the exact picodollar cost fits its carrier.
    pub fn set_report_log_metrics(&mut self, metrics: &ReportMetrics)
        requires
            old(self).wf(),
            (metrics.billed_duration_ms as int) * (metrics.memory_size_mb as int) <= u64::MAX
                as int,
        ensures
            final(self).wf(),
            final(self).config == old(self).config,
            final(self).aggregator.capacity() == old(self).aggregator.capacity(),
            final(self).aggregator@ == (if old(self).config.enhanced_metrics {
                after_report_inserts(
                    old(self).aggregator@,
                    old(self).aggregator.capacity(),
                    *metrics,
                    old(self).config.arch,
                )
            } else {
                old(self).aggregator@
            }),
    {
        if !self.config.enhanced_metrics {
            return;
        }
        let duration = Metric::new(MetricName::Duration, metrics.duration_ms.ms_to_sec());
        let _ = self.aggregator.insert(duration);
        let billed = Metric::new(
            MetricName::BilledDuration,
            Fixed::seconds_from_whole_ms(metrics.billed_duration_ms),
        );
        let _ = self.aggregator.insert(billed);
        let max_memory = Metric::new(
            MetricName::MaxMemoryUsed,
            Fixed::from_whole(metrics.max_memory_used_mb),
        );
        let _ = self.aggregator.insert(max_memory);
        let memory_size = Metric::new(
            MetricName::MemorySize,
            Fixed::from_whole(metrics.memory_size_mb),
        );
        let _ = self.aggregator.insert(memory_size);
        let cost_usd = estimate_cost_usd(
            metrics.billed_duration_ms,
            metrics.memory_size_mb,
            self.config.arch,
        );
        let cost = Metric::new(MetricName::EstimatedCost, cost_usd);
        let _ = self.aggregator.insert(cost);
    }
}

/// Failure isolation in the report batch: on a full aggregator that already
/// holds the four report metrics but not the cost metric, the cost insertion
/// is the one that fails, and the four other samples still land in their
/// sketches while the cost metric stays absent.
pub proof fn lemma_report_batch_failure_isolation(
    m: Map<MetricName, SketchModel>,
    cap: nat,
    report: ReportMetrics,
    arch: Arch,
)
    requires
        m.dom().finite(),
        m.len() >= cap,
        m.contains_key(MetricName::Duration),
        m.contains_key(MetricName::BilledDuration),
        m.contains_key(MetricName::MaxMemoryUsed),
        m.contains_key(MetricName::MemorySize),
        !m.contains_key(MetricName::EstimatedCost),
    ensures
        ({
            let r = after_report_inserts(m, cap, report, arch);
            &&& r[MetricName::Duration] == sketch_with(
                m[MetricName::Duration],
                report.duration_ms@ / (MS_PER_SEC as int),
            )
            &&& r[MetricName::BilledDuration] == sketch_with(
                m[MetricName::BilledDuration],
                (report.billed_duration_ms as int) * (PICOS_PER_MS as int),
            )
            &&& r[MetricName::MaxMemoryUsed] == sketch_with(
                m[MetricName::MaxMemoryUsed],
                (report.max_memory_used_mb as int) * (PICOS_PER_UNIT as int),
            )
            &&& r[MetricName::MemorySize] == sketch_with(
                m[MetricName::MemorySize],
                (report.memory_size_mb as int) * (PICOS_PER_UNIT as int),
            )
            &&& !r.contains_key(MetricName::EstimatedCost)
        }),
{
    let with_duration = after_insert(
        m,
        cap,
        MetricName::Duration,
        report.duration_ms@ / (MS_PER_SEC as int),
    );
    let with_billed = after_insert(
        with_duration,
        cap,
        MetricName::BilledDuration,
        (report.billed_duration_ms as int) * (PICOS_PER_MS as int),
    );
    let with_max_memory = after_insert(
        with_billed,
        cap,
        MetricName::MaxMemoryUsed,
        (report.max_memory_used_mb as int) * (PICOS_PER_UNIT as int),
    );
    let with_memory_size = after_insert(
        with_max_memory,
        cap,
        MetricName::MemorySize,
        (report.memory_size_mb as int) * (PICOS_PER_UNIT as int),
    );
    assert(with_duration.dom() =~= m.dom());
    assert(with_billed.dom() =~= m.dom());
    assert(with_max_memory.dom() =~= m.dom());
    assert(with_memory_size.dom() =~= m.dom());
}

} // verus!
