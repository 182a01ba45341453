//! The listing of metric descriptors, page by page.
//!
//! The listing makes no call itself. It says which page its driver has to
//! ask for next, takes the answer in, and hands the descriptors out one by
//! one.

use crate::client::{project_name, Error, ListMetricDescriptorsOptions};
use crate::google_api;
use crate::google_monitoring_v3::{ListMetricDescriptorsRequest, ListMetricDescriptorsResponse};
use crate::status::RpcStatus;
use vstd::prelude::*;
use vstd::string::StringExecFns;

verus! {

/// A description of a label.
#[derive(Clone, Debug)]
pub struct LabelDescriptor {
    /// The label key.
    pub key: String,
    /// The number of the type of data that can be assigned to the label.
    pub value_type: i32,
    /// A human-readable description for the label.
    pub description: String,
}

/// Additional annotations that can be used to guide the usage of a metric.
#[derive(Clone, Debug)]
pub struct MetricDescriptorMetadata {
    /// The sampling period of metric data points, in nanoseconds.
    pub sample_period: Option<u128>,
    /// The delay of data points caused by ingestion, in nanoseconds.
    pub ingest_delay: Option<u128>,
}

/// Defines a metric type and its schema.
#[derive(Clone, Debug)]
pub struct MetricDescriptor {
    /// The resource name of the metric descriptor.
    pub name: String,
    /// The metric type, including its DNS name prefix.
    pub type_: String,
    /// The labels that can be used to describe a specific instance of this
    /// metric type.
    pub labels: Vec<LabelDescriptor>,
    /// The number of the metric kind.
    pub metric_kind: i32,
    /// The number of the value type.
    pub value_type: i32,
    /// The units in which the metric value is reported.
    pub unit: String,
    /// A detailed description of the metric.
    pub description: String,
    /// A concise name for the metric.
    pub display_name: String,
    /// Metadata which can be used to guide usage of the metric.
    pub metadata: Option<MetricDescriptorMetadata>,
    /// The number of the launch stage of the metric definition.
    pub launch_stage: i32,
    /// The monitored resource types with which this metric can be associated.
    pub monitored_resource_types: Vec<String>,
}

/// The unsigned number that the 64 bits of `n` denote.
pub open spec fn as_unsigned_64(n: i64) -> nat {
    if n < 0 {
        (n + 0x1_0000_0000_0000_0000) as nat
    } else {
        n as nat
    }
}

/// The unsigned number that the 32 bits of `n` denote.
pub open spec fn as_unsigned_32(n: i32) -> nat {
    if n < 0 {
        (n + 0x1_0000_0000) as nat
    } else {
        n as nat
    }
}

/// The length in nanoseconds of the span of time that `duration` stands
/// for, its seconds and its nanoseconds each read as an unsigned number.
pub open spec fn span_of(duration: prost_types::Duration) -> nat {
    as_unsigned_64(duration.seconds) * 1_000_000_000 + as_unsigned_32(duration.nanos)
}

/// The length in nanoseconds of the span of time that `duration` stands for.
pub fn span_nanos(duration: &prost_types::Duration) -> (nanos: u128)
    ensures
        nanos == span_of(*duration),
{
    let seconds: u128 = if duration.seconds < 0 {
        (duration.seconds as i128 + 0x1_0000_0000_0000_0000) as u128
    } else {
        duration.seconds as u128
    };
    let nanos: u128 = if duration.nanos < 0 {
        (duration.nanos as i128 + 0x1_0000_0000) as u128
    } else {
        duration.nanos as u128
    };
    assert(seconds * 1_000_000_000 <= 0xffff_ffff_ffff_ffff * 1_000_000_000) by (nonlinear_arith)
        requires
            seconds <= 0xffff_ffff_ffff_ffff,
    ;
    seconds * 1_000_000_000 + nanos
}

/// The span of time that `duration` stands for, if there is one.
pub open spec fn span_of_option(duration: Option<prost_types::Duration>) -> Option<u128> {
    match duration {
        Some(d) => Some(span_of(d) as u128),
        None => None,
    }
}

impl LabelDescriptor {
    /// Whether this is the description of the label that `label` describes.
    pub open spec fn describes(self, label: google_api::LabelDescriptor) -> bool {
        &&& self.key == label.key
        &&& self.value_type == label.value_type
        &&& self.description == label.description
    }

    /// The description of the label that `label` describes.
    pub fn from_wire(label: google_api::LabelDescriptor) -> (own: Self)
        ensures
            own.describes(label),
    {
        LabelDescriptor {
            key: label.key,
            value_type: label.value_type,
            description: label.description,
        }
    }
}

impl MetricDescriptorMetadata {
    /// Whether these are the annotations that `metadata` holds.
    pub open spec fn describes(
        self,
        metadata: google_api::metric_descriptor::MetricDescriptorMetadata,
    ) -> bool {
        &&& self.sample_period == span_of_option(metadata.sample_period)
        &&& self.ingest_delay == span_of_option(metadata.ingest_delay)
    }

    /// The annotations that `metadata` holds.
    pub fn from_wire(metadata: google_api::metric_descriptor::MetricDescriptorMetadata) -> (own:
        Self)
        ensures
            own.describes(metadata),
    {
        MetricDescriptorMetadata {
            sample_period: match &metadata.sample_period {
                Some(d) => Some(span_nanos(d)),
                None => None,
            },
            ingest_delay: match &metadata.ingest_delay {
                Some(d) => Some(span_nanos(d)),
                None => None,
            },
        }
    }
}

impl MetricDescriptor {
    /// Whether this is the description of the metric that `metric`
    /// describes.
    pub open spec fn describes(self, metric: google_api::MetricDescriptor) -> bool {
        &&& self.name == metric.name
        &&& self.type_ == metric.type_
        &&& self.labels@.len() == metric.labels@.len()
        &&& forall|i: int|
            0 <= i < metric.labels@.len() ==> (#[trigger] self.labels@[i]).describes(
                metric.labels@[i],
            )
        &&& self.metric_kind == metric.metric_kind
        &&& self.value_type == metric.value_type
        &&& self.unit == metric.unit
        &&& self.description == metric.description
        &&& self.display_name == metric.display_name
        &&& match metric.metadata {
            Some(m) => self.metadata matches Some(own) && own.describes(m),
            None => self.metadata is None,
        }
        &&& self.launch_stage == metric.launch_stage
        &&& self.monitored_resource_types == metric.monitored_resource_types
    }

    /// The description of the metric that `metric` describes.
    pub fn from_wire(metric: google_api::MetricDescriptor) -> (own: Self)
        ensures
            own.describes(metric),
    {
        let ghost wire_labels = metric.labels@;
        let mut labels: Vec<LabelDescriptor> = Vec::new();
        for label in it: metric.labels.into_iter()
            invariant
                it.seq() == wire_labels,
                labels@.len() == it.index(),
                forall|i: int|
                    0 <= i < it.index() ==> (#[trigger] labels@[i]).describes(wire_labels[i]),
        {
            labels.push(LabelDescriptor::from_wire(label));
        }
        MetricDescriptor {
            name: metric.name,
            type_: metric.type_,
            labels,
            metric_kind: metric.metric_kind,
            value_type: metric.value_type,
            unit: metric.unit,
            description: metric.description,
            display_name: metric.display_name,
            metadata: match metric.metadata {
                Some(m) => Some(MetricDescriptorMetadata::from_wire(m)),
                None => None,
            },
            launch_stage: metric.launch_stage,
            monitored_resource_types: metric.monitored_resource_types,
        }
    }
}

/// What a listing holds.
pub struct Pages {
    /// The file to take credentials from, in place of the default ones.
    pub credentials_path: Option<String>,
    /// The largest number of descriptors in one page.
    pub page_size: i32,
    /// The filter that the listed descriptors match.
    pub filter: Seq<char>,
    /// The project whose descriptors are listed.
    pub project_id: Seq<char>,
    /// Whether no page has been asked for yet.
    pub first_time: bool,
    /// The descriptors of the last page that are still to be handed out,
    /// the next one last.
    pub buffer: Seq<google_api::MetricDescriptor>,
    /// The token of the page to ask for next, if there is one.
    pub next_page_token: Option<Seq<char>>,
}

impl Pages {
    /// The token of the page to ask for next: the first page has the empty
    /// token.
    pub open spec fn token(self) -> Option<Seq<char>> {
        if self.first_time {
            Some(Seq::empty())
        } else {
            self.next_page_token
        }
    }
}

/// A listing of the metric descriptors of a project.
pub struct ListMetricDescriptors {
    credentials_path: Option<String>,
    page_size: i32,
    filter: String,
    project_id: String,
    first_time: bool,
    buffer: Vec<google_api::MetricDescriptor>,
    next_page_token: Option<String>,
}

/// What a listing comes to next.
pub enum Listed {
    /// The next descriptor.
    Item(MetricDescriptor),
    /// A page has to be asked for with this request, and the answer handed
    /// in.
    Fetch(ListMetricDescriptorsRequest),
    /// There are no more descriptors.
    Done,
}

impl View for ListMetricDescriptors {
    type V = Pages;

    closed spec fn view(&self) -> Pages {
        Pages {
            credentials_path: self.credentials_path,
            page_size: self.page_size,
            filter: self.filter@,
            project_id: self.project_id@,
            first_time: self.first_time,
            buffer: self.buffer@,
            next_page_token: match self.next_page_token {
                Some(token) => Some(token@),
                None => None,
            },
        }
    }
}

impl ListMetricDescriptors {
    /// A listing of the metric descriptors of the project `project_id`, of
    /// which no page has been asked for yet.
    pub fn new(project_id: String, options: &ListMetricDescriptorsOptions) -> (listing: Self)
        ensures
            listing@ == (Pages {
                credentials_path: options.credential_path,
                page_size: options.page_size,
                filter: options.filter@,
                project_id: project_id@,
                first_time: true,
                buffer: Seq::empty(),
                next_page_token: None,
            }),
    {
        let buffer: Vec<google_api::MetricDescriptor> = Vec::new();
        assert(buffer@ =~= Seq::empty());
        Self {
            credentials_path: options.credential_path.clone(),
            project_id,
            first_time: true,
            page_size: options.page_size,
            filter: options.filter.clone(),
            buffer,
            next_page_token: None,
        }
    }

    /// The file to take credentials from, in place of the default ones.
    pub fn credentials_path(&self) -> (path: &Option<String>)
        ensures
            *path == self@.credentials_path,
    {
        &self.credentials_path
    }

    /// What the listing comes to next.
    ///
    /// While descriptors of the last page are left, the last of them is
    /// handed out. Else, where there is a page to ask for, the request for
    /// it is, and the listing keeps no token until the answer is handed in.
    /// Else the listing is done.
    pub fn next(&mut self) -> (listed: Listed)
        ensures
            old(self)@.buffer.len() > 0 ==> (listed matches Listed::Item(descriptor)
                && descriptor.describes(old(self)@.buffer.last()) && final(self)@ == Pages {
                first_time: false,
                buffer: old(self)@.buffer.drop_last(),
                next_page_token: old(self)@.token(),
                ..old(self)@
            }),
            old(self)@.buffer.len() == 0 && old(self)@.token() is Some ==> (listed matches Listed::Fetch(
                request,
            ) && request.name@ == project_name(old(self)@.project_id) && request.filter@ == old(
                self,
            )@.filter && request.page_size == old(self)@.page_size && Some(request.page_token@)
                == old(self)@.token() && final(self)@ == Pages {
                first_time: false,
                next_page_token: None,
                ..old(self)@
            }),
            old(self)@.buffer.len() == 0 && old(self)@.token() is None ==> (listed is Done
                && final(self)@ == old(self)@),
    {
        if self.first_time {
            self.first_time = false;
            self.next_page_token = Some(String::new());
        }
        if let Some(metric) = self.buffer.pop() {
            return Listed::Item(MetricDescriptor::from_wire(metric));
        }
        if let Some(page_token) = self.next_page_token.take() {
            return Listed::Fetch(
                ListMetricDescriptorsRequest {
                    name: String::from_str("projects/").concat(self.project_id.as_str()),
                    filter: self.filter.clone(),
                    page_size: self.page_size,
                    page_token,
                },
            );
        }
        Listed::Done
    }

    /// Takes in the answer to the request for a page.
    ///
    /// The descriptors of a page that has come are those to hand out next,
    /// and its token, unless it is empty, is that of the page to ask for
    /// after them. A failure is handed back, and leaves the listing as it
    /// is.
    pub fn fetched(&mut self, answer: Result<ListMetricDescriptorsResponse, RpcStatus>) -> (result:
        Result<(), Error>)
        ensures
            match answer {
                Ok(page) => result is Ok && final(self)@ == (Pages {
                    buffer: page.metric_descriptors@,
                    next_page_token: if page.next_page_token@.len() == 0 {
                        None
                    } else {
                        Some(page.next_page_token@)
                    },
                    ..old(self)@
                }),
                Err(status) => result == Err::<(), Error>(Error::Grpc(status)) && final(self)@
                    == old(self)@,
            },
    {
        match answer {
            Err(status) => Err(Error::Grpc(status)),
            Ok(page) => {
                self.buffer = page.metric_descriptors;
                self.next_page_token = if page.next_page_token.as_str().is_empty() {
                    None
                } else {
                    Some(page.next_page_token)
                };
                Ok(())
            },
        }
    }
}

} // verus!
