use stackdriver_metrics::google_monitoring_v3::typed_value::Value;
use stackdriver_metrics::number::truncate;
use stackdriver_metrics::time::to_timestamp;
use stackdriver_metrics::{
    CachedDate, MetricKind, Moment, Point, Reading, TimeSeries, TypedResource, ValueType,
};
use std::collections::HashMap;

const HOUR: u128 = 3_600_000_000_000;
const MINUTE: u128 = 60_000_000_000;

fn sample(kind: MetricKind, value_type: ValueType, value: f64) -> TimeSeries {
    let mut metric_labels = HashMap::new();
    metric_labels.insert("route".to_string(), "/home".to_string());
    let mut resource_labels = HashMap::new();
    resource_labels.insert("zone".to_string(), "europe-west1".to_string());
    TimeSeries {
        metric: TypedResource {
            type_: "custom.googleapis.com/requests".to_string(),
            labels: metric_labels,
        },
        resource: TypedResource { type_: "gce_instance".to_string(), labels: resource_labels },
        metric_kind: kind,
        value_type,
        points: Point { value: value.to_bits(), created: Moment::new(1_600_000_000, 250).unwrap() },
    }
}

fn reading(monotonic: u128, second: i64) -> Reading {
    Reading { monotonic, wall: Moment::new(second, 0).unwrap() }
}

#[test]
fn moments_have_fewer_nanoseconds_than_two_seconds() {
    assert!(Moment::new(0, 0).is_some());
    assert!(Moment::new(0, 999_999_999).is_some());
    assert!(Moment::new(59, 1_999_999_999).is_some());
    assert!(Moment::new(59, 2_000_000_000).is_none());
    assert!(Moment::new(0, u32::MAX).is_none());
    assert!(Moment::new(i64::MAX, 0).is_some());
    assert!(Moment::new(i64::MIN, 1).is_some());
    let m = Moment::new(1_431_648_000, 500).unwrap();
    assert_eq!(m.timestamp(), 1_431_648_000);
    assert_eq!(m.timestamp_subsec_nanos(), 500);
    let m = Moment::new(-1, 999_999_999).unwrap();
    assert_eq!((m.timestamp(), m.timestamp_subsec_nanos()), (-1, 999_999_999));
}

#[test]
fn timestamp_denotes_the_same_instant() {
    let t = to_timestamp(Moment::new(1, 0).unwrap());
    assert_eq!((t.seconds, t.nanos), (1, 0));
    let t = to_timestamp(Moment::new(1_431_648_000, 500).unwrap());
    assert_eq!((t.seconds, t.nanos), (1_431_648_000, 500));
    let t = to_timestamp(Moment::new(0, 999_999_999).unwrap());
    assert_eq!((t.seconds, t.nanos), (0, 999_999_999));
    let t = to_timestamp(Moment::new(-1, 999_999_999).unwrap());
    assert_eq!((t.seconds, t.nanos), (-1, 999_999_999));
    let t = to_timestamp(Moment::new(1_600_000_000, 123_456_789).unwrap());
    assert_eq!((t.seconds, t.nanos), (1_600_000_000, 123_456_789));
    let t = to_timestamp(Moment::new(0, 0).unwrap());
    assert_eq!((t.seconds, t.nanos), (0, 0));
    let t = to_timestamp(Moment::new(i64::MAX, 1).unwrap());
    assert_eq!((t.seconds, t.nanos), (i64::MAX, 1));
}

#[test]
fn timestamp_agrees_with_chrono() {
    for (seconds, nanos) in [(1i64, 0u32), (17, 5), (-40, 7), (1_700_000_000, 999_999_999)] {
        let datetime = chrono::DateTime::from_timestamp(seconds, nanos).unwrap();
        let moment =
            Moment::new(datetime.timestamp(), datetime.timestamp_subsec_nanos()).unwrap();
        let t = to_timestamp(moment);
        assert_eq!(t.seconds, datetime.timestamp());
        assert_eq!(t.nanos, datetime.timestamp_subsec_nanos() as i32);
        assert!(0 <= t.nanos && t.nanos <= 999_999_999);
        assert_eq!(
            t.seconds as i128 * 1_000_000_000 + t.nanos as i128,
            datetime.timestamp_nanos_opt().unwrap() as i128
        );
    }
}

#[test]
fn timestamp_within_a_leap_second_keeps_its_nanoseconds() {
    let t = to_timestamp(Moment::new(1_483_228_799, 1_500_000_000).unwrap());
    assert_eq!((t.seconds, t.nanos), (1_483_228_799, 1_500_000_000));
}

#[test]
fn truncation_drops_the_fraction() {
    assert_eq!(truncate(0x4016cccccccccccd), 5);
    assert_eq!(truncate(0xc016cccccccccccd), -5);
    assert_eq!(truncate(0x3fe0000000000000), 0);
    assert_eq!(truncate(0x3ff0000000000000), 1);
    assert_eq!(truncate(0x4028000000000000), 12);
    assert_eq!(truncate(0), 0);
    assert_eq!(truncate(0x8000000000000000), 0);
    assert_eq!(truncate(0x13c4), 0);
    assert_eq!(truncate(0x4340000000000000), 9_007_199_254_740_992);
    assert_eq!(truncate(0x43d0000000000000), 4_611_686_018_427_387_904);
}

#[test]
fn truncation_saturates_and_sends_nan_to_zero() {
    assert_eq!(truncate(0x43e158e460913d00), i64::MAX);
    assert_eq!(truncate(0xc3e158e460913d00), i64::MIN);
    assert_eq!(truncate(0xc3e0000000000000), i64::MIN);
    assert_eq!(truncate(0x43e0000000000000), i64::MAX);
    assert_eq!(truncate(0x7ff0000000000000), i64::MAX);
    assert_eq!(truncate(0xfff0000000000000), i64::MIN);
    assert_eq!(truncate(0x7ff8000000000000), 0);
    assert_eq!(truncate(0xfff0000000000001), 0);
}

#[test]
fn truncation_agrees_with_the_cast() {
    let samples = [
        0.0, -0.0, 0.999, -0.999, 1.0, 1.5, -2.5, 123456.789, -987654321.123, 4503599627370496.5,
        9.007199254740993e15, 1.0e18, -1.0e18, 9.2e18, 9.3e18, -9.3e18, 1.0e300, -1.0e300,
        f64::MIN_POSITIVE, f64::MAX, f64::MIN, f64::INFINITY, f64::NEG_INFINITY, f64::NAN,
        f64::EPSILON, 9223372036854774784.0, -9223372036854775808.0,
    ];
    for x in samples {
        assert_eq!(truncate(x.to_bits()), x as i64, "{x}");
    }
}

#[test]
fn gauge_record_starts_when_it_ends() {
    let series = sample(MetricKind::Gauge, ValueType::Double, 0.75);
    let record = series.clone().encode(Moment::new(1_500_000_000, 0).unwrap());
    let metric = record.metric.unwrap();
    assert_eq!(metric.type_, "custom.googleapis.com/requests");
    assert_eq!(metric.labels, series.metric.labels);
    let resource = record.resource.unwrap();
    assert_eq!(resource.type_, "gce_instance");
    assert_eq!(resource.labels, series.resource.labels);
    assert!(record.metadata.is_none());
    assert_eq!(record.metric_kind, 1);
    assert_eq!(record.value_type, 3);
    assert_eq!(record.unit, "DOUBLE");
    assert_eq!(record.points.len(), 1);
    let interval = record.points[0].interval.clone().unwrap();
    let end = interval.end_time.unwrap();
    let start = interval.start_time.unwrap();
    assert_eq!((end.seconds, end.nanos), (1_600_000_000, 250));
    assert_eq!(start, end);
    match record.points[0].value.clone().unwrap().value.unwrap() {
        Value::DoubleValue(bits) => assert_eq!(f64::from_bits(bits), 0.75),
        other => panic!("{other:?}"),
    }
}

#[test]
fn cumulative_record_starts_at_the_epoch() {
    let series = sample(MetricKind::Cumulative, ValueType::Int64, 41.9);
    let epoch = Moment::new(1_500_000_000, 0).unwrap();
    let record = series.encode(epoch);
    assert_eq!(record.metric_kind, 3);
    assert_eq!(record.value_type, 2);
    assert_eq!(record.unit, "INT64");
    let interval = record.points[0].interval.clone().unwrap();
    let start = interval.start_time.unwrap();
    assert_eq!((start.seconds, start.nanos), (1_500_000_000, 0));
    let end = interval.end_time.unwrap();
    assert_eq!((end.seconds, end.nanos), (1_600_000_000, 250));
    match record.points[0].value.clone().unwrap().value.unwrap() {
        Value::Int64Value(n) => assert_eq!(n, 41),
        other => panic!("{other:?}"),
    }
}

#[test]
fn cached_date_measures_its_age() {
    let mut cached = CachedDate::new(reading(1_000, 50));
    assert_eq!(cached.time().timestamp(), 50);
    assert_eq!(cached.elapsed(1_000), 0);
    assert_eq!(cached.elapsed(4_500), 3_500);
    assert_eq!(cached.elapsed(10), 0);
    cached.reset(reading(9_000, 60));
    assert_eq!(cached.time().timestamp(), 60);
    assert_eq!(cached.elapsed(9_001), 1);
}

#[test]
fn cached_date_is_kept_for_less_than_25_hours() {
    let mut cached = CachedDate::new(reading(0, 50));
    assert_eq!(cached.refresh(reading(25 * HOUR - 1, 90_000)).timestamp(), 50);
    assert_eq!(cached.elapsed(25 * HOUR - 1), 25 * HOUR - 1);
    assert_eq!(cached.refresh(reading(25 * HOUR, 90_050)).timestamp(), 90_050);
    assert_eq!(cached.elapsed(25 * HOUR), 0);
    assert_eq!(cached.refresh(reading(26 * HOUR, 93_650)).timestamp(), 90_050);
}

#[test]
fn stale_epoch_is_reset_before_use() {
    let then = reading(0, 1_600_000_000);
    let now = reading(25 * HOUR + MINUTE, 1_600_090_060);
    let mut cached = CachedDate::new(then);
    let record =
        sample(MetricKind::Cumulative, ValueType::Double, 1.0).as_wire_record(&mut cached, now);
    assert_eq!(cached.time().timestamp(), 1_600_090_060);
    assert_eq!(cached.elapsed(now.monotonic), 0);
    let start = record.points[0].interval.clone().unwrap().start_time.unwrap();
    assert_eq!((start.seconds, start.nanos), (1_600_090_060, 0));
}

#[test]
fn fresh_epoch_is_used_as_it_is() {
    let then = reading(0, 1_600_000_000);
    let now = reading(24 * HOUR + 59 * MINUTE, 1_600_089_940);
    let mut cached = CachedDate::new(then);
    let record =
        sample(MetricKind::Cumulative, ValueType::Double, 1.0).as_wire_record(&mut cached, now);
    assert_eq!(cached.time().timestamp(), 1_600_000_000);
    let start = record.points[0].interval.clone().unwrap().start_time.unwrap();
    assert_eq!(start.seconds, 1_600_000_000);
}

#[test]
fn gauge_record_resets_a_stale_epoch_too() {
    let mut cached = CachedDate::new(reading(0, 1_600_000_000));
    let now = reading(30 * HOUR, 1_600_108_000);
    let record =
        sample(MetricKind::Gauge, ValueType::Double, 1.0).as_wire_record(&mut cached, now);
    assert_eq!(cached.time().timestamp(), 1_600_108_000);
    let interval = record.points[0].interval.clone().unwrap();
    assert_eq!(interval.start_time.unwrap().seconds, 1_600_000_000);
    assert_eq!(interval.end_time.unwrap().seconds, 1_600_000_000);
}
