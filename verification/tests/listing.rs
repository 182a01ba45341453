use stackdriver_metrics::descriptors::span_nanos;
use stackdriver_metrics::google_api;
use stackdriver_metrics::google_api::metric_descriptor;
use stackdriver_metrics::google_monitoring_v3::ListMetricDescriptorsResponse;
use stackdriver_metrics::{
    Code, Error, ListMetricDescriptors, ListMetricDescriptorsOptions, Listed, MetricDescriptor,
    RpcStatus,
};

fn wire(name: &str) -> google_api::MetricDescriptor {
    google_api::MetricDescriptor {
        name: name.to_string(),
        type_: format!("custom.googleapis.com/{name}"),
        labels: vec![
            google_api::LabelDescriptor {
                key: "zone".to_string(),
                value_type: 0,
                description: "where".to_string(),
            },
            google_api::LabelDescriptor {
                key: "up".to_string(),
                value_type: 1,
                description: String::new(),
            },
        ],
        metric_kind: 1,
        value_type: 3,
        unit: "s".to_string(),
        description: "a metric".to_string(),
        display_name: "Metric".to_string(),
        metadata: Some(metric_descriptor::MetricDescriptorMetadata {
            launch_stage: 4,
            sample_period: Some(prost_types::Duration { seconds: 60, nanos: 5 }),
            ingest_delay: None,
        }),
        launch_stage: 4,
        monitored_resource_types: vec!["gce_instance".to_string()],
    }
}

fn page(names: &[&str], token: &str) -> ListMetricDescriptorsResponse {
    ListMetricDescriptorsResponse {
        metric_descriptors: names.iter().map(|n| wire(n)).collect(),
        next_page_token: token.to_string(),
    }
}

#[test]
fn builders_set_one_field_each() {
    let options = ListMetricDescriptorsOptions::default();
    assert!(options.credential_path.is_none());
    assert_eq!(options.filter, "");
    assert_eq!(options.page_size, 500);
    let options = options.filter("metric.type = starts_with(\"custom\")");
    assert_eq!(options.filter, "metric.type = starts_with(\"custom\")");
    assert_eq!(options.page_size, 500);
    let options = options.page_size(20);
    assert_eq!(options.page_size, 20);
    assert_eq!(options.filter, "metric.type = starts_with(\"custom\")");
    let options = options.credentials("/etc/key.json");
    assert_eq!(options.credential_path.as_deref(), Some("/etc/key.json"));
    assert_eq!(options.page_size, 20);
    let options = options.credentials_options(None);
    assert!(options.credential_path.is_none());
    let options = options.credentials_options(Some("k".to_string()));
    assert_eq!(options.credential_path.as_deref(), Some("k"));
    assert_eq!(options.filter, "metric.type = starts_with(\"custom\")");
}

#[test]
fn descriptor_is_copied_field_by_field() {
    let own = MetricDescriptor::from_wire(wire("latency"));
    assert_eq!(own.name, "latency");
    assert_eq!(own.type_, "custom.googleapis.com/latency");
    assert_eq!(own.labels.len(), 2);
    assert_eq!(own.labels[0].key, "zone");
    assert_eq!(own.labels[0].value_type, 0);
    assert_eq!(own.labels[0].description, "where");
    assert_eq!(own.labels[1].key, "up");
    assert_eq!(own.labels[1].value_type, 1);
    assert_eq!(own.metric_kind, 1);
    assert_eq!(own.value_type, 3);
    assert_eq!(own.unit, "s");
    assert_eq!(own.description, "a metric");
    assert_eq!(own.display_name, "Metric");
    let metadata = own.metadata.unwrap();
    assert_eq!(metadata.sample_period, Some(60_000_000_005));
    assert_eq!(metadata.ingest_delay, None);
    assert_eq!(own.launch_stage, 4);
    assert_eq!(own.monitored_resource_types, vec!["gce_instance".to_string()]);
    let mut bare = wire("x");
    bare.metadata = None;
    assert!(MetricDescriptor::from_wire(bare).metadata.is_none());
}

#[test]
fn spans_read_both_fields_as_unsigned() {
    assert_eq!(span_nanos(&prost_types::Duration { seconds: 0, nanos: 0 }), 0);
    assert_eq!(span_nanos(&prost_types::Duration { seconds: 3, nanos: 7 }), 3_000_000_007);
    assert_eq!(
        span_nanos(&prost_types::Duration { seconds: 1, nanos: -1 }),
        1_000_000_000 + 4_294_967_295
    );
    assert_eq!(
        span_nanos(&prost_types::Duration { seconds: -1, nanos: 0 }),
        18_446_744_073_709_551_615u128 * 1_000_000_000
    );
    assert_eq!(
        span_nanos(&prost_types::Duration { seconds: i64::MIN, nanos: i32::MIN }),
        9_223_372_036_854_775_808u128 * 1_000_000_000 + 2_147_483_648
    );
}

#[test]
fn listing_walks_the_pages() {
    let options = ListMetricDescriptorsOptions::default().filter("f").page_size(2).credentials("key");
    let mut listing = ListMetricDescriptors::new("proj".to_string(), &options);
    assert_eq!(listing.credentials_path().as_deref(), Some("key"));
    let mut names = Vec::new();
    let mut tokens = Vec::new();
    let mut pages = vec![page(&["e"], ""), page(&["c", "d"], "t2"), page(&["a", "b"], "t1")];
    loop {
        match listing.next() {
            Listed::Item(descriptor) => names.push(descriptor.name),
            Listed::Fetch(request) => {
                assert_eq!(request.name, "projects/proj");
                assert_eq!(request.filter, "f");
                assert_eq!(request.page_size, 2);
                tokens.push(request.page_token);
                listing.fetched(Ok(pages.pop().unwrap())).unwrap();
            }
            Listed::Done => break,
        }
    }
    assert_eq!(names, vec!["b", "a", "d", "c", "e"]);
    assert_eq!(tokens, vec!["", "t1", "t2"]);
    assert!(matches!(listing.next(), Listed::Done));
}

#[test]
fn listing_with_an_empty_first_page_is_done() {
    let mut listing =
        ListMetricDescriptors::new("proj".to_string(), &ListMetricDescriptorsOptions::default());
    match listing.next() {
        Listed::Fetch(request) => {
            assert_eq!(request.page_token, "");
            assert_eq!(request.page_size, 500);
            assert_eq!(request.filter, "");
        }
        _ => panic!("a request was expected"),
    }
    listing.fetched(Ok(page(&[], ""))).unwrap();
    assert!(matches!(listing.next(), Listed::Done));
}

#[test]
fn listing_hands_a_failure_back() {
    let mut listing =
        ListMetricDescriptors::new("proj".to_string(), &ListMetricDescriptorsOptions::default());
    assert!(matches!(listing.next(), Listed::Fetch(_)));
    let status = RpcStatus { code: Code::Unavailable, message: "down".to_string() };
    match listing.fetched(Err(status)) {
        Err(Error::Grpc(status)) => {
            assert_eq!(status.code, Code::Unavailable);
            assert_eq!(status.message, "down");
        }
        other => panic!("{other:?}"),
    }
    assert!(matches!(listing.next(), Listed::Done));
}
