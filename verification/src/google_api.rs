//! Descriptions of metrics and monitored resources, as the monitoring
//! service exchanges them.

use std::collections::HashMap;
use vstd::prelude::*;

pub mod label_descriptor;
pub mod metric_descriptor;

verus! {

/// `prost_types::Struct`, a structured value of the wire format, of which
/// nothing is known here.
#[verifier::external_type_specification]
#[verifier::external_body]
pub struct ExStruct(prost_types::Struct);

/// A description of a label.
#[derive(Clone, Debug)]
pub struct LabelDescriptor {
    /// The label key.
    pub key: String,
    /// The type of data that can be assigned to the label, as the number of a
    /// [`label_descriptor::ValueType`].
    pub value_type: i32,
    /// A human-readable description for the label.
    pub description: String,
}

/// The launch stage of a feature or an API.
#[derive(Clone, Copy, Debug, PartialEq, Eq, Hash, Structural)]
pub enum LaunchStage {
    Unspecified,
    Unimplemented,
    Prelaunch,
    EarlyAccess,
    Alpha,
    Beta,
    Ga,
    Deprecated,
}

impl LaunchStage {
    /// The number that the wire format gives to each stage.
    pub open spec fn number(self) -> i32 {
        match self {
            LaunchStage::Unspecified => 0,
            LaunchStage::EarlyAccess => 1,
            LaunchStage::Alpha => 2,
            LaunchStage::Beta => 3,
            LaunchStage::Ga => 4,
            LaunchStage::Deprecated => 5,
            LaunchStage::Unimplemented => 6,
            LaunchStage::Prelaunch => 7,
        }
    }

    /// The stage's number on the wire.
    pub fn as_i32(self) -> (n: i32)
        ensures
            n == self.number(),
    {
        match self {
            LaunchStage::Unspecified => 0,
            LaunchStage::EarlyAccess => 1,
            LaunchStage::Alpha => 2,
            LaunchStage::Beta => 3,
            LaunchStage::Ga => 4,
            LaunchStage::Deprecated => 5,
            LaunchStage::Unimplemented => 6,
            LaunchStage::Prelaunch => 7,
        }
    }

    /// The stage with the given number, if there is one.
    pub fn from_i32(n: i32) -> (stage: Option<LaunchStage>)
        ensures
            stage is Some <==> 0 <= n <= 7,
            stage matches Some(s) ==> s.number() == n,
    {
        match n {
            0 => Some(LaunchStage::Unspecified),
            1 => Some(LaunchStage::EarlyAccess),
            2 => Some(LaunchStage::Alpha),
            3 => Some(LaunchStage::Beta),
            4 => Some(LaunchStage::Ga),
            5 => Some(LaunchStage::Deprecated),
            6 => Some(LaunchStage::Unimplemented),
            7 => Some(LaunchStage::Prelaunch),
            _ => None,
        }
    }
}

/// Defines a metric type and its schema.
#[derive(Clone, Debug)]
pub struct MetricDescriptor {
    /// The resource name of the metric descriptor.
    pub name: String,
    /// The metric type, including its DNS name prefix.
    pub type_: String,
    /// The labels that can be used to describe a specific instance of this
    /// metric type.
    pub labels: Vec<LabelDescriptor>,
    /// Whether the metric records instantaneous values, changes to a value,
    /// or an accumulation, as the number of a
    /// [`metric_descriptor::MetricKind`].
    pub metric_kind: i32,
    /// Whether the measurement is an integer, a floating-point number, or
    /// another kind, as the number of a [`metric_descriptor::ValueType`].
    pub value_type: i32,
    /// The units in which the metric value is reported.
    pub unit: String,
    /// A detailed description of the metric.
    pub description: String,
    /// A concise name for the metric.
    pub display_name: String,
    /// Metadata which can be used to guide usage of the metric.
    pub metadata: Option<metric_descriptor::MetricDescriptorMetadata>,
    /// The launch stage of the metric definition, as the number of a
    /// [`LaunchStage`].
    pub launch_stage: i32,
    /// The monitored resource types with which this metric can be associated.
    pub monitored_resource_types: Vec<String>,
}

/// A specific metric, identified by specifying values for all of the labels
/// of a [`MetricDescriptor`].
#[derive(Clone, Debug)]
pub struct Metric {
    /// An existing metric type.
    pub type_: String,
    /// The set of label values that uniquely identify this metric.
    pub labels: HashMap<String, String>,
}

/// Describes the schema of a monitored resource type.
#[derive(Clone, Debug)]
pub struct MonitoredResourceDescriptor {
    /// The resource name of the monitored resource descriptor.
    pub name: String,
    /// The monitored resource type.
    pub type_: String,
    /// A concise name for the monitored resource type.
    pub display_name: String,
    /// A detailed description of the monitored resource type.
    pub description: String,
    /// The labels used to describe instances of this monitored resource type.
    pub labels: Vec<LabelDescriptor>,
    /// The launch stage of the monitored resource definition, as the number
    /// of a [`LaunchStage`].
    pub launch_stage: i32,
}

/// A resource that a metric is measured on.
#[derive(Clone, Debug)]
pub struct MonitoredResource {
    /// The monitored resource type.
    pub type_: String,
    /// Values for all of the labels of the resource type.
    pub labels: HashMap<String, String>,
}

/// Auxiliary metadata for a [`MonitoredResource`].
#[derive(Clone, Debug)]
pub struct MonitoredResourceMetadata {
    /// Values for predefined system metadata labels.
    pub system_labels: Option<prost_types::Struct>,
    /// A map of user-defined metadata labels.
    pub user_labels: HashMap<String, String>,
}

} // verus!
