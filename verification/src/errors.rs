//! Error taxonomy of the pipeline and the fallback reporting sink for
//! errors that have no synchronous caller to return to.

use vstd::prelude::*;

verus! {

/// Why a log operation failed.
#[derive(Debug, Clone, Copy, PartialEq, Eq, Structural)]
pub enum LogError {
    /// The queue was full at enqueue time and the record was dropped.
    QueueFull,
    /// The exporter returned an error for a batch.
    ExportFailed,
    /// The exporter exceeded its deadline of the given number of
    /// milliseconds; the in-flight batch was discarded.
    ExportTimedOut(u64),
    /// The operation was attempted after the worker terminated.
    AlreadyShutdown,
    /// The worker's channel closed unexpectedly.
    ChannelClosed,
}

/// The result of a log operation.
pub type LogResult = Result<(), LogError>;

/// The result of handing a batch to an exporter.
pub type ExportResult = Result<(), LogError>;

/// A failure from any pillar of the telemetry system.
#[derive(Debug)]
pub enum Error {
    /// Failed to export logs.
    Log(LogError),
    /// Other types of failures not covered by the variants above.
    Other(String),
}

impl Error {
    /// A human-readable description of the failure.
    pub fn message(&self) -> (r: String)
        ensures
            (self matches Error::Other(m)) ==> r@ == self->Other_0@,
    {
        match self {
            Error::Log(LogError::QueueFull) => "queue full, record dropped".to_owned(),
            Error::Log(LogError::ExportFailed) => "the exporter failed a batch".to_owned(),
            Error::Log(LogError::ExportTimedOut(_)) => "the exporter missed its deadline".to_owned(),
            Error::Log(LogError::AlreadyShutdown) => "already shut down".to_owned(),
            Error::Log(LogError::ChannelClosed) => "the worker's channel closed".to_owned(),
            Error::Other(m) => m.clone(),
        }
    }
}

impl From<LogError> for Error {
    fn from(err: LogError) -> (r: Error) {
        Error::Log(err)
    }
}

impl vstd::std_specs::convert::FromSpecImpl<LogError> for Error {
    open spec fn obeys_from_spec() -> bool {
        true
    }

    open spec fn from_spec(err: LogError) -> Error {
        Error::Log(err)
    }
}

/// Log levels for diagnostics of the pipeline itself.
#[derive(Debug, Clone, Copy, PartialEq, Eq, Structural)]
pub enum LogLevel {
    /// Fine-grained diagnostics.
    Debug,
    /// Ordinary progress reports.
    Info,
    /// Something unexpected that the pipeline worked around.
    Warn,
    /// A failure, such as a dropped record or a failed export.
    Error,
}

impl LogLevel {
    /// Severity rank of a level: higher means more severe.
    pub open spec fn spec_rank(self) -> u8 {
        match self {
            LogLevel::Debug => 0,
            LogLevel::Info => 1,
            LogLevel::Warn => 2,
            LogLevel::Error => 3,
        }
    }

    /// Severity rank of a level: higher means more severe.
    pub fn rank(&self) -> (r: u8)
        ensures
            r == self.spec_rank(),
    {
        match self {
            LogLevel::Debug => 0,
            LogLevel::Info => 1,
            LogLevel::Warn => 2,
            LogLevel::Error => 3,
        }
    }
}

/// The part of the telemetry system an internal report concerns.
#[derive(Debug, Clone, Copy, PartialEq, Eq, Structural)]
pub enum Pillar {
    /// Tracing.
    Trace,
    /// Metrics.
    Metrics,
    /// Logging.
    Logs,
    /// Context propagation.
    Propagation,
    /// Anything else.
    Other,
}

/// The component within a pillar an internal report concerns.
#[derive(Debug, Clone, Copy, PartialEq, Eq, Structural)]
pub enum Component {
    /// An exporter.
    Exporter,
    /// A processor.
    Processor,
    /// A span provider.
    SpanProvider,
    /// Context handling.
    Context,
    /// Anything else.
    Other,
}

/// An internal report of the pipeline: an error or a progress note that has
/// no synchronous caller to return to.
#[derive(Debug)]
pub struct TelemetryLog {
    /// How severe the report is.
    pub level: LogLevel,
    /// Which pillar it concerns.
    pub pillar: Pillar,
    /// Which component it concerns.
    pub component: Component,
    /// A human-readable message.
    pub message: String,
}

/// A fallback reporting sink. Errors arising from calls with no synchronous
/// caller (dropped records, tick-triggered export failures) are recorded
/// here and otherwise swallowed: they never propagate back to the caller
/// of `emit` and never panic.
///
/// The sink is explicit, process-scoped state owned by whoever hosts the
/// pipeline; the batching core never depends on an ambient singleton.
#[derive(Debug)]
pub struct TelemetrySink {
    /// The runtime level below which reports are filtered out.
    pub level: LogLevel,
    /// The reports recorded so far, oldest first.
    pub entries: Vec<TelemetryLog>,
}

impl TelemetrySink {
    /// A sink that keeps reports of level `Info` and above, with nothing
    /// recorded yet.
    pub fn new() -> (r: TelemetrySink)
        ensures
            r.level == LogLevel::Info,
            r.entries@ =~= Seq::<TelemetryLog>::empty(),
    {
        TelemetrySink { level: LogLevel::Info, entries: Vec::new() }
    }

    /// The number of reports recorded so far.
    pub fn len(&self) -> (n: usize)
        ensures
            n == self.entries@.len(),
    {
        self.entries.len()
    }
}

/// Set the runtime level for filtering internal reports.
pub fn set_log_level(sink: &mut TelemetrySink, level: LogLevel)
    ensures
        final(sink).level == level,
        final(sink).entries@ == old(sink).entries@,
{
    sink.level = level;
}

/// Whether a report of the given level passes the sink's runtime filter.
pub fn is_runtime_log_level_enabled(sink: &TelemetrySink, level: LogLevel) -> (r: bool)
    ensures
        r == (sink.level.spec_rank() <= level.spec_rank()),
{
    sink.level.rank() <= level.rank()
}

/// Record an internal report in the sink if its level passes the filter;
/// otherwise drop it. Never fails and never panics.
pub fn handle_log(sink: &mut TelemetrySink, entry: TelemetryLog)
    ensures
        final(sink).level == old(sink).level,
        old(sink).level.spec_rank() <= entry.level.spec_rank() ==> final(sink).entries@
            =~= old(sink).entries@.push(entry),
        old(sink).level.spec_rank() > entry.level.spec_rank() ==> final(sink).entries@ == old(
            sink,
        ).entries@,
{
    if sink.level.rank() <= entry.level.rank() {
        sink.entries.push(entry);
    }
}

} // verus!
