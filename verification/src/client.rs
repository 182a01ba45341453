//! Metric observations as callers hand them in, and their encoding as the
//! records that the monitoring service accepts.

use crate::cached::CachedDate;
use crate::google_api;
use crate::google_monitoring_v3;
use crate::google_monitoring_v3::typed_value;
use crate::number::{truncate, truncated};
use crate::status::RpcStatus;
use crate::time::{timestamp_of, to_timestamp, Moment, Reading};
use std::collections::HashMap;
use vstd::prelude::*;
use vstd::string::StringExecFns;

verus! {

/// A typed thing with labels: a metric, or the resource it is measured on.
#[derive(Debug, Clone)]
pub struct TypedResource {
    /// The type of the metric or of the monitored resource.
    pub type_: String,
    /// The labels that tell this instance from others of its type.
    pub labels: HashMap<String, String>,
}

/// How the values of a series relate to time.
#[derive(Debug, Clone, Copy, PartialEq, Eq, Structural)]
pub enum MetricKind {
    /// A value accumulated since a start time.
    Cumulative,
    /// A measurement at one point in time.
    Gauge,
}

/// The type under which a value is reported.
#[derive(Debug, Clone, Copy, PartialEq, Eq, Structural)]
pub enum ValueType {
    /// A signed 64-bit integer.
    Int64,
    /// A double-precision number.
    Double,
}

/// One measurement.
#[derive(Debug, Clone, Copy)]
pub struct Point {
    /// The measured value: a double-precision number, held as its IEEE 754
    /// bit pattern.
    pub value: u64,
    /// When the measurement was made.
    pub created: Moment,
}

/// One observation of one metric on one resource.
#[derive(Debug, Clone)]
pub struct TimeSeries {
    /// The metric that was measured.
    pub metric: TypedResource,
    /// The resource it was measured on.
    pub resource: TypedResource,
    /// How the value accumulates.
    pub metric_kind: MetricKind,
    /// The type under which the value is reported.
    pub value_type: ValueType,
    /// The measurement.
    pub points: Point,
}

impl MetricKind {
    /// The kind under which the service knows this kind.
    pub open spec fn wire_kind(self) -> google_api::metric_descriptor::MetricKind {
        match self {
            MetricKind::Cumulative => google_api::metric_descriptor::MetricKind::Cumulative,
            MetricKind::Gauge => google_api::metric_descriptor::MetricKind::Gauge,
        }
    }

    /// The kind under which the service knows this kind.
    pub fn to_wire(self) -> (kind: google_api::metric_descriptor::MetricKind)
        ensures
            kind == self.wire_kind(),
    {
        match self {
            MetricKind::Cumulative => google_api::metric_descriptor::MetricKind::Cumulative,
            MetricKind::Gauge => google_api::metric_descriptor::MetricKind::Gauge,
        }
    }
}

impl ValueType {
    /// The value type under which the service knows this value type.
    pub open spec fn wire_type(self) -> google_api::metric_descriptor::ValueType {
        match self {
            ValueType::Int64 => google_api::metric_descriptor::ValueType::Int64,
            ValueType::Double => google_api::metric_descriptor::ValueType::Double,
        }
    }

    /// The unit that records of this value type carry.
    pub open spec fn unit(self) -> Seq<char> {
        match self {
            ValueType::Int64 => "INT64"@,
            ValueType::Double => "DOUBLE"@,
        }
    }

    /// The typed value that reports the double-precision number with the
    /// bit pattern `value` under this value type: narrowed to an integer, or
    /// as it is.
    pub open spec fn typed(self, value: u64) -> typed_value::Value {
        match self {
            ValueType::Int64 => typed_value::Value::Int64Value(truncated(value) as i64),
            ValueType::Double => typed_value::Value::DoubleValue(value),
        }
    }

    /// The value type under which the service knows this value type.
    pub fn to_wire(self) -> (value_type: google_api::metric_descriptor::ValueType)
        ensures
            value_type == self.wire_type(),
    {
        match self {
            ValueType::Int64 => google_api::metric_descriptor::ValueType::Int64,
            ValueType::Double => google_api::metric_descriptor::ValueType::Double,
        }
    }

    /// The unit that records of this value type carry.
    pub fn unit_name(self) -> (unit: String)
        ensures
            unit@ == self.unit(),
    {
        match self {
            ValueType::Int64 => String::from_str("INT64"),
            ValueType::Double => String::from_str("DOUBLE"),
        }
    }

    /// Reports the double-precision number with the bit pattern `value`
    /// under this value type.
    pub fn typed_value(self, value: u64) -> (typed: typed_value::Value)
        ensures
            typed == self.typed(value),
    {
        match self {
            ValueType::Int64 => typed_value::Value::Int64Value(truncate(value)),
            ValueType::Double => typed_value::Value::DoubleValue(value),
        }
    }
}

impl TimeSeries {
    /// The time at which the interval of this observation's record starts,
    /// where cumulative series start at `epoch`: a measurement at one point
    /// in time starts when it was made.
    pub open spec fn start(self, epoch: Moment) -> Moment {
        match self.metric_kind {
            MetricKind::Gauge => self.points.created,
            MetricKind::Cumulative => epoch,
        }
    }

    /// The single data point of this observation's record.
    pub open spec fn wire_point(self, epoch: Moment) -> google_monitoring_v3::Point {
        google_monitoring_v3::Point {
            interval: Some(
                google_monitoring_v3::TimeInterval {
                    end_time: Some(timestamp_of(self.points.created)),
                    start_time: Some(timestamp_of(self.start(epoch))),
                },
            ),
            value: Some(
                google_monitoring_v3::TypedValue {
                    value: Some(self.value_type.typed(self.points.value)),
                },
            ),
        }
    }

    /// Whether `record` is the record of this observation, where cumulative
    /// series start at `epoch`.
    pub open spec fn is_encoded_as(
        self,
        record: google_monitoring_v3::TimeSeries,
        epoch: Moment,
    ) -> bool {
        &&& record.metric == Some(
            google_api::Metric { type_: self.metric.type_, labels: self.metric.labels },
        )
        &&& record.resource == Some(
            google_api::MonitoredResource {
                type_: self.resource.type_,
                labels: self.resource.labels,
            },
        )
        &&& record.metadata is None
        &&& record.metric_kind == self.metric_kind.wire_kind().number()
        &&& record.value_type == self.value_type.wire_type().number()
        &&& record.points@ == seq![self.wire_point(epoch)]
        &&& record.unit@ == self.value_type.unit()
    }

    /// Encodes this observation as a record for the service, with `epoch` as
    /// the start time of cumulative series.
    pub fn encode(self, epoch: Moment) -> (record: google_monitoring_v3::TimeSeries)
        ensures
            self.is_encoded_as(record, epoch),
    {
        let end_time = to_timestamp(self.points.created);
        let start_time = match self.metric_kind {
            MetricKind::Gauge => to_timestamp(self.points.created),
            MetricKind::Cumulative => to_timestamp(epoch),
        };
        let metric_kind = self.metric_kind.to_wire();
        let value_type = self.value_type.to_wire();
        let unit = self.value_type.unit_name();
        let value = self.value_type.typed_value(self.points.value);
        let mut points: Vec<google_monitoring_v3::Point> = Vec::new();
        points.push(
            google_monitoring_v3::Point {
                interval: Some(
                    google_monitoring_v3::TimeInterval {
                        end_time: Some(end_time),
                        start_time: Some(start_time),
                    },
                ),
                value: Some(google_monitoring_v3::TypedValue { value: Some(value) }),
            },
        );
        google_monitoring_v3::TimeSeries {
            metric: Some(google_api::Metric { type_: self.metric.type_, labels: self.metric.labels }),
            resource: Some(
                google_api::MonitoredResource {
                    type_: self.resource.type_,
                    labels: self.resource.labels,
                },
            ),
            metadata: None,
            metric_kind: metric_kind.as_i32(),
            value_type: value_type.as_i32(),
            points,
            unit,
        }
    }

    /// Encodes this observation as a record for the service at the reading
    /// `now`. The cached start time of cumulative series is taken anew
    /// beforehand if it is 25 hours old or older.
    pub fn as_wire_record(self, cached_date: &mut CachedDate, now: Reading) -> (record:
        google_monitoring_v3::TimeSeries)
        ensures
            (final(cached_date).epoch(), final(cached_date).taken_at()) == old(
                cached_date,
            ).refreshed(now),
            self.is_encoded_as(record, final(cached_date).epoch()),
    {
        let epoch = cached_date.refresh(now);
        self.encode(epoch)
    }
}

/// What can be set for a listing of metric descriptors.
pub struct ListMetricDescriptorsOptions {
    /// The file to take credentials from, in place of the default ones.
    pub credential_path: Option<String>,
    /// The filter that the listed descriptors match.
    pub filter: String,
    /// The largest number of descriptors in one page.
    pub page_size: i32,
}

impl Default for ListMetricDescriptorsOptions {
    /// Default credentials, no filter, pages of 500.
    fn default() -> (options: Self)
        ensures
            options.credential_path is None,
            options.filter@.len() == 0,
            options.page_size == 500,
    {
        Self { credential_path: None, filter: String::new(), page_size: 500 }
    }
}

impl ListMetricDescriptorsOptions {
    /// The same options, with `filter` as the filter.
    pub fn filter(self, filter: &str) -> (options: Self)
        ensures
            options.filter@ == filter@,
            options.credential_path == self.credential_path,
            options.page_size == self.page_size,
    {
        Self { filter: String::from_str(filter), ..self }
    }

    /// The same options, with pages of at most `page_size` descriptors.
    pub fn page_size(self, page_size: i32) -> (options: Self)
        ensures
            options.page_size == page_size,
            options.credential_path == self.credential_path,
            options.filter == self.filter,
    {
        Self { page_size, ..self }
    }

    /// The same options, with credentials taken from the file at `path`.
    pub fn credentials(self, path: &str) -> (options: Self)
        ensures
            options.credential_path matches Some(p) && p@ == path@,
            options.filter == self.filter,
            options.page_size == self.page_size,
    {
        Self { credential_path: Some(String::from_str(path)), ..self }
    }

    /// The same options, with credentials taken from the file at
    /// `credential_path` if there is one, else the default ones.
    pub fn credentials_options(self, credential_path: Option<String>) -> (options: Self)
        ensures
            options.credential_path == credential_path,
            options.filter == self.filter,
            options.page_size == self.page_size,
    {
        Self { credential_path, ..self }
    }
}

/// The service accepts at most this many time series in one request.
pub const MAX_TIME_SERIES_PER_REQUEST: usize = 200;

/// Ten seconds, in nanoseconds.
pub const DEFAULT_PERIOD: u128 = 10_000_000_000;

/// What can be set for the streaming of time series.
#[derive(Debug, Clone)]
pub struct Options {
    /// The file to take credentials from, in place of the default ones.
    pub credentials_path: Option<String>,
    /// The number of buffered series at which a batch is sent.
    pub batch_size: usize,
    /// The least time between two batches, in nanoseconds; also the time
    /// after which a batch is sent whatever its size.
    pub period: u128,
    /// The number of times that a batch is sent at most.
    pub retries: usize,
}

impl Default for Options {
    /// Default credentials, batches of 200, ten seconds between batches,
    /// three attempts.
    fn default() -> (options: Self)
        ensures
            options.credentials_path is None,
            options.batch_size == 200,
            options.period == DEFAULT_PERIOD,
            options.retries == 3,
    {
        Self { credentials_path: None, batch_size: 200, period: DEFAULT_PERIOD, retries: 3 }
    }
}

impl Options {
    /// The same options, with credentials taken from the file at `path`.
    pub fn credentials(self, path: &str) -> (options: Self)
        ensures
            options.credentials_path matches Some(p) && p@ == path@,
            options.batch_size == self.batch_size,
            options.period == self.period,
            options.retries == self.retries,
    {
        Self { credentials_path: Some(String::from_str(path)), ..self }
    }

    /// The same options, with credentials taken from the file at
    /// `credentials_path` if there is one, else the default ones.
    pub fn credentials_options(self, credentials_path: Option<String>) -> (options: Self)
        ensures
            options.credentials_path == credentials_path,
            options.batch_size == self.batch_size,
            options.period == self.period,
            options.retries == self.retries,
    {
        Self { credentials_path, ..self }
    }

    /// The same options, with batches sent at `batch_size` buffered series.
    pub fn batch_size(self, batch_size: usize) -> (options: Self)
        ensures
            options.batch_size == batch_size,
            options.credentials_path == self.credentials_path,
            options.period == self.period,
            options.retries == self.retries,
    {
        Self { batch_size, ..self }
    }

    /// The same options, with at least `period` nanoseconds between batches.
    pub fn period(self, period: u128) -> (options: Self)
        ensures
            options.period == period,
            options.credentials_path == self.credentials_path,
            options.batch_size == self.batch_size,
            options.retries == self.retries,
    {
        Self { period, ..self }
    }

    /// The same options, with at most `retries` attempts to send a batch.
    pub fn retries(self, retries: usize) -> (options: Self)
        ensures
            options.retries == retries,
            options.credentials_path == self.credentials_path,
            options.batch_size == self.batch_size,
            options.period == self.period,
    {
        Self { retries, ..self }
    }
}

/// What can go wrong in a call to the service.
#[derive(Debug, Clone)]
pub enum Error {
    /// The service answered with a failure.
    Grpc(RpcStatus),
    /// The call was not made, as the service would not accept its argument.
    InvalidArgument(String),
    /// The connection to the service could not be set up.
    InitializationError(String),
}

impl Error {
    /// The text of this error: what kind of error it is, then its detail;
    /// for a failure that the service reported, the text of its status.
    pub open spec fn text(self) -> Seq<char> {
        match self {
            Error::Grpc(status) => "Unmapped gRPC error: "@ + status.text(),
            Error::InvalidArgument(detail) => "Invalid argument: "@ + detail@,
            Error::InitializationError(detail) => "Initialization error: "@ + detail@,
        }
    }

    /// The text of this error.
    pub fn to_string(&self) -> (text: String)
        ensures
            text@ == self.text(),
    {
        match self {
            Error::Grpc(status) => String::from_str("Unmapped gRPC error: ").concat(
                status.to_string().as_str(),
            ),
            Error::InvalidArgument(detail) => String::from_str("Invalid argument: ").concat(
                detail.as_str(),
            ),
            Error::InitializationError(detail) => String::from_str(
                "Initialization error: ",
            ).concat(detail.as_str()),
        }
    }
}

/// The decimal digit for `d`, a number below ten.
pub open spec fn digit(d: nat) -> char {
    (48 + d) as char
}

/// The digits of `n` in decimal notation, without leading zeros.
pub open spec fn decimal_digits(n: nat) -> Seq<char>
    decreases n,
{
    if n < 10 {
        seq![digit(n)]
    } else {
        decimal_digits(n / 10).push(digit(n % 10))
    }
}

/// The decimal notation of `n`, as `ToString::to_string` writes an unsigned
/// integer: its digits, without sign, padding or leading zeros.
#[verifier::external_body]
fn decimal(n: usize) -> (text: String)
    ensures
        text@ == decimal_digits(n as nat),
{
    n.to_string()
}

/// The detail of the error for a list of `len` time series that is too long
/// for one request.
pub open spec fn too_many_series(len: nat) -> Seq<char> {
    "Time series list is greater than 200, got "@ + decimal_digits(len)
}

/// The name under which the service knows the project `project_id`.
pub open spec fn project_name(project_id: Seq<char>) -> Seq<char> {
    "projects/"@ + project_id
}

/// The request that writes `time_series` to the project `project_id`, or
/// the error for a list of more than 200 of them.
pub fn create_time_series_request(
    project_id: &str,
    time_series: Vec<google_monitoring_v3::TimeSeries>,
) -> (request: Result<google_monitoring_v3::CreateTimeSeriesRequest, Error>)
    ensures
        time_series@.len() <= MAX_TIME_SERIES_PER_REQUEST ==> (request matches Ok(r) && r.name@
            == project_name(project_id@) && r.time_series == time_series),
        time_series@.len() > MAX_TIME_SERIES_PER_REQUEST ==> (request matches Err(
            Error::InvalidArgument(detail),
        ) && detail@ == too_many_series(time_series@.len())),
{
    if time_series.len() > MAX_TIME_SERIES_PER_REQUEST {
        return Err(
            Error::InvalidArgument(
                String::from_str("Time series list is greater than 200, got ").concat(
                    decimal(time_series.len()).as_str(),
                ),
            ),
        );
    }
    Ok(
        google_monitoring_v3::CreateTimeSeriesRequest {
            name: String::from_str("projects/").concat(project_id),
            time_series,
        },
    )
}

/// The request that deletes the metric descriptor `name`.
pub fn delete_metric_descriptor_request(name: &str) -> (request:
    google_monitoring_v3::DeleteMetricDescriptorRequest)
    ensures
        request.name@ == name@,
{
    google_monitoring_v3::DeleteMetricDescriptorRequest { name: String::from_str(name) }
}

} // verus!
