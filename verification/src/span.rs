//! The span side of the pipeline: the data a finished span carries and
//! the batch type handed to span exporters.

use vstd::prelude::*;

use crate::record::AnyValue;
use crate::record::InstrumentationScope;
use crate::record::TraceContext;

verus! {

/// The role a span played in the interaction it describes.
#[derive(Debug, Clone, Copy, PartialEq, Eq, Structural)]
pub enum SpanKind {
    /// An outgoing request.
    Client,
    /// An incoming request.
    Server,
    /// A message put on a queue.
    Producer,
    /// A message taken off a queue.
    Consumer,
    /// Anything in-process.
    Internal,
}

/// The outcome recorded on a finished span.
#[derive(Debug)]
pub enum Status {
    /// No outcome was set.
    Unset,
    /// The operation failed, with a description.
    Error(String),
    /// The operation succeeded.
    Okay,
}

/// All the information collected by a span, as exporters receive it.
/// Timestamps are nanoseconds since the epoch.
#[derive(Debug)]
pub struct SpanData {
    /// The span's identity and trace membership.
    pub span_context: TraceContext,
    /// The parent span's id, zero at a trace root.
    pub parent_span_id: u64,
    /// The span's role.
    pub span_kind: SpanKind,
    /// The span's name.
    pub name: String,
    /// When the span started.
    pub start_time: u64,
    /// When the span ended.
    pub end_time: u64,
    /// The span's attributes, in insertion order.
    pub attributes: Vec<(String, AnyValue)>,
    /// How many attributes were dropped over the configured limit.
    pub dropped_attributes_count: u32,
    /// The recorded outcome.
    pub status: Status,
}

/// A batch of spans, each with the scope that produced it, grouped for
/// one exporter call.
#[derive(Debug)]
pub struct SpanBatch {
    /// The spans, in the order they were handed over.
    pub data: Vec<(SpanData, InstrumentationScope)>,
}

impl SpanBatch {
    /// A batch over the given spans.
    pub fn new(data: Vec<(SpanData, InstrumentationScope)>) -> (r: SpanBatch)
        ensures
            r.data == data,
    {
        SpanBatch { data }
    }

    /// A batch that takes ownership of spans a worker accumulated.
    pub fn new_with_owned_data(data: Vec<(SpanData, InstrumentationScope)>) -> (r: SpanBatch)
        ensures
            r.data == data,
    {
        SpanBatch { data }
    }

    /// The spans in the batch, for an exporter to walk in order.
    pub fn iter(&self) -> (r: &Vec<(SpanData, InstrumentationScope)>)
        ensures
            r == &self.data,
    {
        &self.data
    }

    /// How many spans the batch holds.
    pub fn len(&self) -> (n: usize)
        ensures
            n == self.data@.len(),
    {
        self.data.len()
    }
}

} // verus!
