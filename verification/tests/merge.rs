use stackdriver_metrics::scheduler::is_flush_due;
use stackdriver_metrics::{MergeBuffer, MetricKind, Moment, Point, TimeSeries, TypedResource, ValueType};
use std::collections::HashMap;

fn observation(metric: &str, kind: MetricKind, value: f64, second: i64) -> TimeSeries {
    TimeSeries {
        metric: TypedResource { type_: metric.to_string(), labels: HashMap::new() },
        resource: TypedResource { type_: "global".to_string(), labels: HashMap::new() },
        metric_kind: kind,
        value_type: ValueType::Double,
        points: Point { value: value.to_bits(), created: Moment::new(second, 0).unwrap() },
    }
}

fn float_sum(a: u64, b: u64) -> u64 {
    (f64::from_bits(a) + f64::from_bits(b)).to_bits()
}

fn value_of(buffer: &MergeBuffer, metric: &str) -> f64 {
    f64::from_bits(buffer.get(&metric.to_string()).unwrap().points.value)
}

#[test]
fn it_works() {
    assert_eq!(2 + 2, 4);
}

#[test]
fn new_buffer_is_empty() {
    let buffer = MergeBuffer::new();
    assert_eq!(buffer.len(), 0);
    assert!(buffer.is_empty());
    assert!(buffer.get(&"a".to_string()).is_none());
}

#[test]
fn first_observation_becomes_the_entry_verbatim() {
    let mut buffer = MergeBuffer::new();
    let mut first = observation("a", MetricKind::Cumulative, 1.5, 10);
    first.metric.labels.insert("zone".to_string(), "x".to_string());
    first.value_type = ValueType::Int64;
    buffer.ingest(first, &float_sum);
    assert_eq!(buffer.len(), 1);
    let entry = buffer.get(&"a".to_string()).unwrap();
    assert_eq!(entry.metric.type_, "a");
    assert_eq!(entry.metric.labels.get("zone").map(String::as_str), Some("x"));
    assert_eq!(entry.resource.type_, "global");
    assert_eq!(entry.metric_kind, MetricKind::Cumulative);
    assert_eq!(entry.value_type, ValueType::Int64);
    assert_eq!(entry.points.value, 1.5f64.to_bits());
    assert_eq!(entry.points.created.timestamp(), 10);
}

#[test]
fn gauge_keeps_the_last_value() {
    let mut buffer = MergeBuffer::new();
    let values = [4.0, -1.0, 9.25, 0.5];
    for (i, v) in values.iter().enumerate() {
        buffer.ingest(observation("g", MetricKind::Gauge, *v, i as i64), &float_sum);
        assert_eq!(buffer.len(), 1);
        assert_eq!(value_of(&buffer, "g"), *v);
    }
    assert_eq!(value_of(&buffer, "g"), 0.5);
}

#[test]
fn cumulative_adds_all_values() {
    let mut buffer = MergeBuffer::new();
    let values = [4.0, 1.0, 9.25, 0.5];
    let mut total = 0.0;
    for (i, v) in values.iter().enumerate() {
        buffer.ingest(observation("c", MetricKind::Cumulative, *v, i as i64), &float_sum);
        total += *v;
        assert_eq!(value_of(&buffer, "c"), total);
    }
    assert_eq!(buffer.len(), 1);
    assert_eq!(value_of(&buffer, "c"), 14.75);
}

#[test]
fn the_stored_kind_rules_the_merge() {
    let mut buffer = MergeBuffer::new();
    buffer.ingest(observation("m", MetricKind::Gauge, 2.0, 0), &float_sum);
    buffer.ingest(observation("m", MetricKind::Cumulative, 5.0, 1), &float_sum);
    assert_eq!(value_of(&buffer, "m"), 5.0);
    assert_eq!(buffer.get(&"m".to_string()).unwrap().metric_kind, MetricKind::Gauge);

    buffer.ingest(observation("n", MetricKind::Cumulative, 2.0, 0), &float_sum);
    buffer.ingest(observation("n", MetricKind::Gauge, 5.0, 1), &float_sum);
    assert_eq!(value_of(&buffer, "n"), 7.0);
    assert_eq!(buffer.get(&"n".to_string()).unwrap().metric_kind, MetricKind::Cumulative);
}

#[test]
fn a_merge_changes_the_value_only() {
    let mut buffer = MergeBuffer::new();
    buffer.ingest(observation("m", MetricKind::Gauge, 2.0, 100), &float_sum);
    let mut later = observation("m", MetricKind::Gauge, 3.0, 200);
    later.resource.type_ = "elsewhere".to_string();
    later.value_type = ValueType::Int64;
    buffer.ingest(later, &float_sum);
    let entry = buffer.get(&"m".to_string()).unwrap();
    assert_eq!(entry.points.value, 3.0f64.to_bits());
    assert_eq!(entry.points.created.timestamp(), 100);
    assert_eq!(entry.resource.type_, "global");
    assert_eq!(entry.value_type, ValueType::Double);
}

#[test]
fn merge_key_is_the_metric_type_alone() {
    let mut buffer = MergeBuffer::new();
    let mut one = observation("m", MetricKind::Cumulative, 1.0, 0);
    one.resource.type_ = "vm-1".to_string();
    let mut two = observation("m", MetricKind::Cumulative, 2.0, 0);
    two.resource.type_ = "vm-2".to_string();
    buffer.ingest(one, &float_sum);
    buffer.ingest(two, &float_sum);
    assert_eq!(buffer.len(), 1);
    assert_eq!(value_of(&buffer, "m"), 3.0);
    assert_eq!(buffer.get(&"m".to_string()).unwrap().resource.type_, "vm-1");
}

#[test]
fn drain_returns_everything_in_order_and_empties_the_buffer() {
    let mut buffer = MergeBuffer::new();
    for name in ["x", "y", "z", "y"] {
        buffer.ingest(observation(name, MetricKind::Cumulative, 1.0, 0), &float_sum);
    }
    assert_eq!(buffer.find(&"y".to_string()), Some(1));
    assert_eq!(buffer.find(&"w".to_string()), None);
    let drained = buffer.drain();
    let names: Vec<&str> = drained.iter().map(|s| s.metric.type_.as_str()).collect();
    assert_eq!(names, vec!["x", "y", "z"]);
    assert_eq!(f64::from_bits(drained[1].points.value), 2.0);
    assert!(buffer.is_empty());
    assert!(buffer.drain().is_empty());
}

#[test]
fn the_sum_is_the_callers() {
    let mut buffer = MergeBuffer::new();
    let largest = |a: u64, b: u64| a.max(b);
    buffer.ingest(observation("c", MetricKind::Cumulative, 0.0, 0), &largest);
    buffer.get(&"c".to_string()).unwrap();
    let mut seven = observation("c", MetricKind::Cumulative, 0.0, 0);
    seven.points.value = 7;
    buffer.ingest(seven, &largest);
    let mut three = observation("c", MetricKind::Cumulative, 0.0, 0);
    three.points.value = 3;
    buffer.ingest(three, &largest);
    assert_eq!(buffer.get(&"c".to_string()).unwrap().points.value, 7);
}

#[test]
fn two_series_merged_over_three_observations() {
    let batch_size = 2;
    let mut buffer = MergeBuffer::new();
    buffer.ingest(observation("A", MetricKind::Cumulative, 5.0, 0), &float_sum);
    assert_eq!(buffer.len(), 1);
    assert!(!is_flush_due(buffer.len(), batch_size, 0, 10_000_000_000));
    buffer.ingest(observation("B", MetricKind::Gauge, 3.0, 0), &float_sum);
    assert_eq!(buffer.len(), 2);
    buffer.ingest(observation("A", MetricKind::Cumulative, 7.0, 0), &float_sum);
    assert_eq!(buffer.len(), 2);
    assert!(is_flush_due(buffer.len(), batch_size, 0, 10_000_000_000));
    let drained = buffer.drain();
    assert_eq!(drained.len(), 2);
    assert_eq!(drained[0].metric.type_, "A");
    assert_eq!(f64::from_bits(drained[0].points.value), 12.0);
    assert_eq!(drained[0].points.value, 0x4028000000000000);
    assert_eq!(drained[1].metric.type_, "B");
    assert_eq!(f64::from_bits(drained[1].points.value), 3.0);
    assert!(buffer.is_empty());
}
