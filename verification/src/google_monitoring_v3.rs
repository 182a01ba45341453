//! Time series and the requests that carry them, as the monitoring service
//! exchanges them.

use crate::google_api::{Metric, MetricDescriptor, MonitoredResource, MonitoredResourceMetadata};
use vstd::prelude::*;

pub mod typed_value;

verus! {

/// A single strongly-typed value.
#[derive(Clone, Debug)]
pub struct TypedValue {
    /// The typed value field.
    pub value: Option<typed_value::Value>,
}

/// A closed time interval.
#[derive(Clone, Debug)]
pub struct TimeInterval {
    /// The end of the time interval.
    pub end_time: Option<prost_types::Timestamp>,
    /// The beginning of the time interval; for a point-in-time measurement
    /// it equals the end.
    pub start_time: Option<prost_types::Timestamp>,
}

/// A single data point in a time series.
#[derive(Clone, Debug)]
pub struct Point {
    /// The time interval to which the data point applies.
    pub interval: Option<TimeInterval>,
    /// The value of the data point.
    pub value: Option<TypedValue>,
}

/// A collection of data points that describes the time-varying values of a
/// metric.
#[derive(Clone, Debug)]
pub struct TimeSeries {
    /// The associated metric.
    pub metric: Option<Metric>,
    /// The associated monitored resource.
    pub resource: Option<MonitoredResource>,
    /// The associated monitored resource metadata.
    pub metadata: Option<MonitoredResourceMetadata>,
    /// The metric kind of the time series, as the number of a
    /// [`crate::google_api::metric_descriptor::MetricKind`].
    pub metric_kind: i32,
    /// The value type of the time series, as the number of a
    /// [`crate::google_api::metric_descriptor::ValueType`].
    pub value_type: i32,
    /// The data points of this time series.
    pub points: Vec<Point>,
    /// The units in which the metric value is reported.
    pub unit: String,
}

/// The request that lists metric descriptors.
#[derive(Clone, Debug)]
pub struct ListMetricDescriptorsRequest {
    /// The project on which to execute the request.
    pub name: String,
    /// A filter on the metric descriptors to return.
    pub filter: String,
    /// A positive number that is the maximum number of results to return.
    pub page_size: i32,
    /// The token that the previous response gave for the next page.
    pub page_token: String,
}

/// The response to a request that lists metric descriptors.
#[derive(Clone, Debug)]
pub struct ListMetricDescriptorsResponse {
    /// The metric descriptors that match the filter.
    pub metric_descriptors: Vec<MetricDescriptor>,
    /// A token for the next page, empty when there are no more results.
    pub next_page_token: String,
}

/// The request that deletes a metric descriptor.
#[derive(Clone, Debug)]
pub struct DeleteMetricDescriptorRequest {
    /// The metric descriptor on which to execute the request.
    pub name: String,
}

/// The request that writes time series.
#[derive(Clone, Debug)]
pub struct CreateTimeSeriesRequest {
    /// The project on which to execute the request.
    pub name: String,
    /// The new data to be added to a list of time series; at most 200 per
    /// request.
    pub time_series: Vec<TimeSeries>,
}

} // verus!
