use enhanced_metrics::aggregator::Aggregator;
use enhanced_metrics::fixed::Fixed;
use enhanced_metrics::metric::{Metric, MetricName};

#[test]
fn test_insert_accumulates_sketch_statistics() {
    let mut aggregator = Aggregator::new(16);
    aggregator
        .insert(Metric::new(MetricName::RuntimeDuration, Fixed::from_whole(100)))
        .unwrap();
    aggregator
        .insert(Metric::new(MetricName::RuntimeDuration, Fixed::from_whole(300)))
        .unwrap();

    let sketch = aggregator
        .get_entry_by_id(MetricName::RuntimeDuration)
        .expect("metric not found");
    assert_eq!(sketch.min_picos(), Fixed::from_whole(100).picos);
    assert_eq!(sketch.max_picos(), Fixed::from_whole(300).picos);
    assert_eq!(sketch.sum_picos(), Fixed::from_whole(400).picos);
    assert_eq!(sketch.count(), 2);
    assert_eq!(sketch.avg_picos(), Fixed::from_whole(200).picos);
}

#[test]
fn test_insert_rejects_new_metric_at_capacity() {
    let mut aggregator = Aggregator::new(1);
    assert!(aggregator
        .insert(Metric::new(MetricName::Invocations, Fixed::from_whole(1)))
        .is_ok());
    // A second distinct identifier exceeds the cardinality bound.
    assert!(aggregator
        .insert(Metric::new(MetricName::Errors, Fixed::from_whole(1)))
        .is_err());
    // The known identifier still accepts samples at capacity.
    assert!(aggregator
        .insert(Metric::new(MetricName::Invocations, Fixed::from_whole(1)))
        .is_ok());

    let sketch = aggregator
        .get_entry_by_id(MetricName::Invocations)
        .expect("metric not found");
    assert_eq!(sketch.count(), 2);
    assert_eq!(sketch.sum_picos(), Fixed::from_whole(2).picos);
    assert!(aggregator.get_entry_by_id(MetricName::Errors).is_none());
}

#[test]
fn test_lookup_missing_metric_is_none() {
    let aggregator = Aggregator::new(8);
    assert!(aggregator.get_entry_by_id(MetricName::Duration).is_none());
}

#[test]
fn test_wire_names() {
    assert_eq!(
        MetricName::Invocations.as_str(),
        "aws.lambda.enhanced.invocations"
    );
    assert_eq!(
        MetricName::EstimatedCost.as_str(),
        "aws.lambda.enhanced.estimated_cost"
    );
}

#[test]
fn test_fixed_ms_to_sec_truncates_below_picounit() {
    // 100 ms is 0.1 s.
    assert_eq!(Fixed::from_whole(100).ms_to_sec().picos, 100_000_000_000);
    // A value finer than a thousandth of a picounit truncates.
    assert_eq!(Fixed::from_picos(1001).ms_to_sec().picos, 1);
}
