use enhanced_metrics::aggregator::Aggregator;
use enhanced_metrics::config::Config;
use enhanced_metrics::cost::Arch;
use enhanced_metrics::events::ReportMetrics;
use enhanced_metrics::fixed::Fixed;
use enhanced_metrics::lambda::Lambda;
use enhanced_metrics::metric::MetricName;

fn setup() -> (Aggregator, Config) {
    (Aggregator::new(1024), Config::default())
}

fn assert_sketch(aggregator: &Aggregator, metric_id: MetricName, value: Fixed) {
    if let Some(sketch) = aggregator.get_entry_by_id(metric_id) {
        assert_eq!(sketch.max_picos(), value.picos);
        assert_eq!(sketch.min_picos(), value.picos);
        assert_eq!(sketch.sum_picos(), value.picos);
        assert_eq!(sketch.avg_picos(), value.picos);
    } else {
        panic!("metric not found");
    }
}

#[test]
fn test_increment_invocation_metric() {
    let (metrics_aggr, my_config) = setup();
    let mut lambda = Lambda::new(metrics_aggr, my_config);
    lambda.increment_invocation_metric();

    assert_sketch(
        &lambda.aggregator,
        MetricName::Invocations,
        Fixed::from_whole(1),
    );
}

#[test]
fn test_increment_errors_metric() {
    let (metrics_aggr, my_config) = setup();
    let mut lambda = Lambda::new(metrics_aggr, my_config);
    lambda.increment_errors_metric();

    assert_sketch(&lambda.aggregator, MetricName::Errors, Fixed::from_whole(1));
}

#[test]
fn test_increment_timeout_metric() {
    let (metrics_aggr, my_config) = setup();
    let mut lambda = Lambda::new(metrics_aggr, my_config);
    lambda.increment_timeout_metric();

    assert_sketch(
        &lambda.aggregator,
        MetricName::Timeouts,
        Fixed::from_whole(1),
    );
}

#[test]
fn test_disabled() {
    let (metrics_aggr, no_config) = setup();
    let my_config = Config {
        enhanced_metrics: false,
        ..no_config
    };
    let mut lambda = Lambda::new(metrics_aggr, my_config);
    lambda.increment_invocation_metric();
    lambda.increment_errors_metric();
    lambda.increment_timeout_metric();
    lambda.set_init_duration_metric(Fixed::from_whole(100));
    lambda.set_runtime_duration_metric(Fixed::from_whole(100));
    lambda.set_post_runtime_duration_metric(Fixed::from_whole(100));
    lambda.set_report_log_metrics(&ReportMetrics {
        duration_ms: Fixed::from_whole(100),
        billed_duration_ms: 100,
        max_memory_used_mb: 128,
        memory_size_mb: 256,
        init_duration_ms: Some(Fixed::from_whole(50)),
        restore_duration_ms: None,
    });
    let aggr = &lambda.aggregator;
    assert!(aggr.get_entry_by_id(MetricName::Invocations).is_none());
    assert!(aggr.get_entry_by_id(MetricName::Errors).is_none());
    assert!(aggr.get_entry_by_id(MetricName::Timeouts).is_none());
    assert!(aggr.get_entry_by_id(MetricName::InitDuration).is_none());
    assert!(aggr.get_entry_by_id(MetricName::RuntimeDuration).is_none());
    assert!(aggr
        .get_entry_by_id(MetricName::PostRuntimeDuration)
        .is_none());
    assert!(aggr.get_entry_by_id(MetricName::Duration).is_none());
    assert!(aggr.get_entry_by_id(MetricName::BilledDuration).is_none());
    assert!(aggr.get_entry_by_id(MetricName::MaxMemoryUsed).is_none());
    assert!(aggr.get_entry_by_id(MetricName::MemorySize).is_none());
    assert!(aggr.get_entry_by_id(MetricName::EstimatedCost).is_none());
}

#[test]
fn test_set_report_log_metrics() {
    let (metrics_aggr, my_config) = setup();
    let mut lambda = Lambda::new(metrics_aggr, my_config);
    let report_metrics = ReportMetrics {
        duration_ms: Fixed::from_whole(100),
        billed_duration_ms: 100,
        max_memory_used_mb: 128,
        memory_size_mb: 256,
        init_duration_ms: Some(Fixed::from_whole(50)),
        restore_duration_ms: None,
    };
    lambda.set_report_log_metrics(&report_metrics);

    // 100 ms in seconds: 0.1
    assert_sketch(
        &lambda.aggregator,
        MetricName::Duration,
        Fixed::from_picos(100_000_000_000),
    );
    assert_sketch(
        &lambda.aggregator,
        MetricName::BilledDuration,
        Fixed::from_picos(100_000_000_000),
    );

    assert_sketch(
        &lambda.aggregator,
        MetricName::MaxMemoryUsed,
        Fixed::from_whole(128),
    );
    assert_sketch(
        &lambda.aggregator,
        MetricName::MemorySize,
        Fixed::from_whole(256),
    );
}

#[test]
fn test_set_init_duration_metric_converts_ms_to_seconds() {
    let (metrics_aggr, my_config) = setup();
    let mut lambda = Lambda::new(metrics_aggr, my_config);
    lambda.set_init_duration_metric(Fixed::from_whole(100));

    // 100 ms stored as 0.1 s
    assert_sketch(
        &lambda.aggregator,
        MetricName::InitDuration,
        Fixed::from_picos(100_000_000_000),
    );
}

#[test]
fn test_set_runtime_duration_metric_keeps_milliseconds() {
    let (metrics_aggr, my_config) = setup();
    let mut lambda = Lambda::new(metrics_aggr, my_config);
    lambda.set_runtime_duration_metric(Fixed::from_whole(100));

    // stored unconverted, in milliseconds
    assert_sketch(
        &lambda.aggregator,
        MetricName::RuntimeDuration,
        Fixed::from_whole(100),
    );
}

#[test]
fn test_set_post_runtime_duration_metric_keeps_milliseconds() {
    let (metrics_aggr, my_config) = setup();
    let mut lambda = Lambda::new(metrics_aggr, my_config);
    lambda.set_post_runtime_duration_metric(Fixed::from_whole(100));

    assert_sketch(
        &lambda.aggregator,
        MetricName::PostRuntimeDuration,
        Fixed::from_whole(100),
    );
}

#[test]
fn test_report_batch_stores_estimated_cost() {
    let metrics_aggr = Aggregator::new(1024);
    let my_config = Config {
        enhanced_metrics: true,
        arch: Arch::Amd64,
    };
    let mut lambda = Lambda::new(metrics_aggr, my_config);
    lambda.set_report_log_metrics(&ReportMetrics {
        duration_ms: Fixed::from_whole(100),
        billed_duration_ms: 100,
        max_memory_used_mb: 128,
        memory_size_mb: 256,
        init_duration_ms: None,
        restore_duration_ms: None,
    });

    // 0.0000002 + (0.1 s * 0.25 GB) * 0.0000166667, rounded at 12 digits
    assert_sketch(
        &lambda.aggregator,
        MetricName::EstimatedCost,
        Fixed::from_picos(616_668),
    );
}

#[test]
fn test_report_batch_failure_isolation() {
    // Four slots: the four report metrics fit, the cost metric is rejected.
    let metrics_aggr = Aggregator::new(4);
    let my_config = Config {
        enhanced_metrics: true,
        arch: Arch::Amd64,
    };
    let mut lambda = Lambda::new(metrics_aggr, my_config);
    lambda.set_report_log_metrics(&ReportMetrics {
        duration_ms: Fixed::from_whole(100),
        billed_duration_ms: 100,
        max_memory_used_mb: 128,
        memory_size_mb: 256,
        init_duration_ms: None,
        restore_duration_ms: None,
    });

    assert_sketch(
        &lambda.aggregator,
        MetricName::Duration,
        Fixed::from_picos(100_000_000_000),
    );
    assert_sketch(
        &lambda.aggregator,
        MetricName::BilledDuration,
        Fixed::from_picos(100_000_000_000),
    );
    assert_sketch(
        &lambda.aggregator,
        MetricName::MaxMemoryUsed,
        Fixed::from_whole(128),
    );
    assert_sketch(
        &lambda.aggregator,
        MetricName::MemorySize,
        Fixed::from_whole(256),
    );
    assert!(lambda
        .aggregator
        .get_entry_by_id(MetricName::EstimatedCost)
        .is_none());
}
