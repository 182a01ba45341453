//! What belongs to a metric description.

use vstd::prelude::*;

verus! {

/// `prost_types::Duration`, the span of time of the wire format: a struct
/// of two public fields, seconds and nanoseconds.
#[verifier::external_type_specification]
pub struct ExDuration(prost_types::Duration);

/// Additional annotations that can be used to guide the usage of a metric.
#[derive(Clone, Debug)]
pub struct MetricDescriptorMetadata {
    /// The launch stage of the metric definition, as the number of a
    /// [`super::LaunchStage`].
    pub launch_stage: i32,
    /// The sampling period of metric data points.
    pub sample_period: Option<prost_types::Duration>,
    /// The delay of data points caused by ingestion.
    pub ingest_delay: Option<prost_types::Duration>,
}

/// The kind of measurement: how the data is reported.
#[derive(Clone, Copy, Debug, PartialEq, Eq, Hash, Structural)]
pub enum MetricKind {
    /// Do not use this default value.
    Unspecified,
    /// An instantaneous measurement of a value.
    Gauge,
    /// The change in a value during a time interval.
    Delta,
    /// A value accumulated over a time interval.
    Cumulative,
}

impl MetricKind {
    /// The number that the wire format gives to each kind.
    pub open spec fn number(self) -> i32 {
        match self {
            MetricKind::Unspecified => 0,
            MetricKind::Gauge => 1,
            MetricKind::Delta => 2,
            MetricKind::Cumulative => 3,
        }
    }

    /// The kind's number on the wire.
    pub fn as_i32(self) -> (n: i32)
        ensures
            n == self.number(),
    {
        match self {
            MetricKind::Unspecified => 0,
            MetricKind::Gauge => 1,
            MetricKind::Delta => 2,
            MetricKind::Cumulative => 3,
        }
    }

    /// The kind with the given number, if there is one.
    pub fn from_i32(n: i32) -> (kind: Option<MetricKind>)
        ensures
            kind is Some <==> 0 <= n <= 3,
            kind matches Some(k) ==> k.number() == n,
    {
        match n {
            0 => Some(MetricKind::Unspecified),
            1 => Some(MetricKind::Gauge),
            2 => Some(MetricKind::Delta),
            3 => Some(MetricKind::Cumulative),
            _ => None,
        }
    }
}

/// The value type of a metric.
#[derive(Clone, Copy, Debug, PartialEq, Eq, Hash, Structural)]
pub enum ValueType {
    /// Do not use this default value.
    Unspecified,
    /// The value is a boolean.
    Bool,
    /// The value is a signed 64-bit integer.
    Int64,
    /// The value is a double precision floating point number.
    Double,
    /// The value is a text string.
    String,
    /// The value is a distribution.
    Distribution,
    /// The value is money.
    Money,
}

impl ValueType {
    /// The number that the wire format gives to each value type.
    pub open spec fn number(self) -> i32 {
        match self {
            ValueType::Unspecified => 0,
            ValueType::Bool => 1,
            ValueType::Int64 => 2,
            ValueType::Double => 3,
            ValueType::String => 4,
            ValueType::Distribution => 5,
            ValueType::Money => 6,
        }
    }

    /// The value type's number on the wire.
    pub fn as_i32(self) -> (n: i32)
        ensures
            n == self.number(),
    {
        match self {
            ValueType::Unspecified => 0,
            ValueType::Bool => 1,
            ValueType::Int64 => 2,
            ValueType::Double => 3,
            ValueType::String => 4,
            ValueType::Distribution => 5,
            ValueType::Money => 6,
        }
    }

    /// The value type with the given number, if there is one.
    pub fn from_i32(n: i32) -> (value_type: Option<ValueType>)
        ensures
            value_type is Some <==> 0 <= n <= 6,
            value_type matches Some(v) ==> v.number() == n,
    {
        match n {
            0 => Some(ValueType::Unspecified),
            1 => Some(ValueType::Bool),
            2 => Some(ValueType::Int64),
            3 => Some(ValueType::Double),
            4 => Some(ValueType::String),
            5 => Some(ValueType::Distribution),
            6 => Some(ValueType::Money),
            _ => None,
        }
    }
}

} // verus!
