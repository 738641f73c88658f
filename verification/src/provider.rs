//! The user-events exporter surface: keyword/level configuration, the
//! event-exporter capability, the realtime processor, and the builders
//! that wire them up.

use vstd::prelude::*;

use crate::errors::ExportResult;
use crate::errors::LogResult;
use crate::logger_config::Config;
use crate::logger_config::DefaultEventEnabled;
use crate::record::LogData;

verus! {

/// Chooses the tracepoint keyword and level stamped on exported events;
/// hosts implement it to route events.
pub trait KeywordLevelProvider: Sized {
    /// The keyword(s) to use for log events.
    fn get_log_event_keywords(&self) -> u64;

    /// The level to use for log events.
    fn get_log_event_level(&self) -> u8;
}

/// The default routing: keyword 0x1000 at the informational level.
#[derive(Debug, Clone, Copy, PartialEq, Eq, Structural)]
pub struct DefaultKeywordLevelProvider;

impl KeywordLevelProvider for DefaultKeywordLevelProvider {
    fn get_log_event_keywords(&self) -> (r: u64)
        ensures
            r == 0x1000,
    {
        0x1000
    }

    fn get_log_event_level(&self) -> (r: u8)
        ensures
            r == 4,
    {
        4
    }
}

/// A keyword/level provider chosen for one exporter.
#[derive(Debug, Clone, Copy)]
pub struct ExporterConfig<T: KeywordLevelProvider> {
    /// The provider the choices are delegated to.
    pub kwl: T,
}

impl<T: KeywordLevelProvider> KeywordLevelProvider for ExporterConfig<T> {
    fn get_log_event_keywords(&self) -> u64 {
        self.kwl.get_log_event_keywords()
    }

    fn get_log_event_level(&self) -> u8 {
        self.kwl.get_log_event_level()
    }
}

/// Writes single events to an event sink; implemented by the wire-level
/// exporters.
pub trait EventExporter: Sized {
    /// Whether the sink currently listens for this level and keyword.
    fn enabled(&self, level: u8, keyword: u64) -> bool;

    /// Write one record to the sink.
    fn log_log_data(&mut self, log_data: &LogData) -> ExportResult;
}

/// The async runtime a batching exporter runs its worker on.
#[derive(Debug, Clone, Copy, PartialEq, Eq, Structural)]
pub enum ExporterAsyncRuntime {
    /// A multi-threaded runtime.
    Tokio,
    /// A single-threaded runtime; see the pipeline's note on cooperative
    /// schedulers before flushing from the same runtime.
    TokioCurrentThread,
}

/// Whether a name may stand as a tracepoint provider name or option
/// value: only ASCII digits and lowercase ASCII letters.
pub open spec fn valid_provider_name(s: Seq<char>) -> bool {
    forall|i: int|
        0 <= i < s.len() ==> (('0' <= #[trigger] s[i] && s[i] <= '9') || ('a' <= s[i] && s[i]
            <= 'z'))
}

/// Relies on `eventheader_dynamic::ProviderOptions::is_valid_option_value`:
/// true exactly when every character of the value is an ASCII digit or a
/// lowercase ASCII letter.
#[verifier::external_body]
fn is_valid_option_value(value: &str) -> (r: bool)
    ensures
        r == valid_provider_name(value@),
{
    eventheader_dynamic::ProviderOptions::is_valid_option_value(value)
}

/// Configures a user-events exporter before it is installed; create one
/// with [`new_exporter`].
#[derive(Debug)]
pub struct ExporterBuilder {
    /// The tracepoint provider name.
    pub provider_name: String,
    /// The provider group, if any.
    pub provider_group: Option<String>,
    /// The runtime to batch on; none means the pass-through processor.
    pub runtime: Option<ExporterAsyncRuntime>,
}

/// Create an exporter builder for the given provider name.
pub fn new_exporter(name: &str) -> (r: ExporterBuilder)
    ensures
        r.provider_name@ == name@,
        r.provider_group is None,
        r.runtime is None,
{
    ExporterBuilder { provider_name: name.to_owned(), provider_group: None, runtime: None }
}

impl ExporterBuilder {
    /// Turn this builder into a log-exporter builder.
    pub fn logs(self) -> (r: LogsExporterBuilder)
        ensures
            r.parent == self,
            r.log_config is None,
    {
        LogsExporterBuilder { parent: self, log_config: None }
    }

    /// Set the provider group name.
    pub fn with_provider_group(self, name: &str) -> (r: Self)
        ensures
            r.provider_name == self.provider_name,
            r.runtime == self.runtime,
            (r.provider_group matches Some(g) && g@ == name@),
    {
        let group = name.to_owned();
        let ghost g = group@;
        let r = ExporterBuilder { provider_group: Some(group), ..self };
        proof {
            assert(r.provider_group matches Some(gr) && gr@ == g);
        }
        r
    }

    /// Choose the async runtime a batching exporter would run on.
    pub fn with_async_runtime(self, runtime: ExporterAsyncRuntime) -> (r: Self)
        ensures
            r.provider_name == self.provider_name,
            r.provider_group == self.provider_group,
            r.runtime == Some(runtime),
    {
        ExporterBuilder { runtime: Some(runtime), ..self }
    }

    /// Whether the configured provider name may be registered: only ASCII
    /// digits and lowercase ASCII letters are accepted. An invalid name is
    /// reported to the caller, never a panic.
    pub fn validate_config(&self) -> (r: bool)
        ensures
            r == valid_provider_name(self.provider_name@),
    {
        is_valid_option_value(self.provider_name.as_str())
    }
}

/// Configures the log side of a user-events exporter.
#[derive(Debug)]
pub struct LogsExporterBuilder {
    /// The exporter-wide configuration.
    pub parent: ExporterBuilder,
    /// The log emitter configuration, if overridden.
    pub log_config: Option<Config<DefaultEventEnabled>>,
}

impl LogsExporterBuilder {
    /// Override the log emitter configuration.
    pub fn with_log_config(self, config: Config<DefaultEventEnabled>) -> (r: Self)
        ensures
            r.parent == self.parent,
            r.log_config is Some,
    {
        LogsExporterBuilder { log_config: Some(config), ..self }
    }
}

/// A processor that hands each record straight to an event exporter as it
/// is emitted, with no buffering.
#[derive(Debug)]
pub struct RealTimeLogProcessor<C: KeywordLevelProvider, E: EventExporter> {
    /// The sink events are written to.
    pub event_exporter: E,
    /// The keyword/level routing for the events.
    pub exporter_config: ExporterConfig<C>,
}

impl<C: KeywordLevelProvider, E: EventExporter> RealTimeLogProcessor<C, E> {
    /// A realtime processor writing to the given sink.
    pub fn new(event_exporter: E, exporter_config: ExporterConfig<C>) -> (r: Self)
        ensures
            r.event_exporter == event_exporter,
            r.exporter_config == exporter_config,
    {
        RealTimeLogProcessor { event_exporter, exporter_config }
    }

    /// Write one record to the sink if it currently listens at the
    /// configured level and keyword; errors from the sink are swallowed,
    /// since `emit` has no caller to return them to.
    pub fn emit(&mut self, data: &LogData) {
        let level = self.exporter_config.get_log_event_level();
        let keyword = self.exporter_config.get_log_event_keywords();
        if self.event_exporter.enabled(level, keyword) {
            let _ = self.event_exporter.log_log_data(data);
        }
    }

    /// Nothing is buffered, so there is nothing to flush.
    pub fn force_flush(&self) -> (r: LogResult)
        ensures
            r is Ok,
    {
        Ok(())
    }

    /// Nothing is owned beyond the sink, which the host shuts down.
    pub fn shutdown(&mut self) -> (r: LogResult)
        ensures
            r is Ok,
    {
        Ok(())
    }
}

} // verus!
