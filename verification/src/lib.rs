//! Batches metric observations into bounded, periodic write requests for a
//! time-series ingestion service.
//!
//! Observations are merged by metric type in a [`buffer::MergeBuffer`]. The
//! [`batcher::Batcher`] decides after each of them whether a batch is due,
//! keeps batches a period apart, encodes the buffered entries as the
//! records of the service, and says what follows each attempt to send them.
//! It makes no call and reads no clock itself: its driver hands in what the
//! clocks show and what came of each call.
//!
//! Measured values are double-precision numbers that this crate holds as
//! their IEEE 754 bit patterns. It never does arithmetic on them: sums are
//! taken by a function that the caller hands in.

pub mod batcher;
pub mod buffer;
pub mod cached;
pub mod client;
pub mod descriptors;
pub mod google_api;
pub mod google_monitoring_v3;
pub mod number;
pub mod scheduler;
pub mod sender;
pub mod status;
pub mod time;

pub use crate::batcher::{Backoff, Batcher, FlushOutcome, Observed, Sending, Step, Waiting};
pub use crate::buffer::MergeBuffer;
pub use crate::cached::CachedDate;
pub use crate::client::{
    Error, ListMetricDescriptorsOptions, MetricKind, Options, Point, TimeSeries, TypedResource,
    ValueType,
};
pub use crate::descriptors::{
    LabelDescriptor, ListMetricDescriptors, Listed, MetricDescriptor, MetricDescriptorMetadata,
};
pub use crate::status::{Code, RpcStatus};
pub use crate::time::{Moment, Reading, Stopwatch};
