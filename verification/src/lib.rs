//! A telemetry log SDK: records are emitted through a chain of processors,
//! buffered by a batching processor with a bounded queue, and handed to
//! pluggable exporters in batches.
#![verifier::loop_isolation(false)]

use vstd::prelude::*;

mod batch;
mod bridge;
mod buffer;
mod chain;
mod config;
mod errors;
mod exporter;
mod limits;
mod logger_config;
mod provider;
mod record;
mod severity;
mod simple;
mod span;

pub use batch::BatchLogProcessor;
pub use batch::BatchLogProcessorBuilder;
pub use batch::BatchMessage;
pub use batch::buffer_after;
pub use batch::exported_after;
pub use batch::last_resource;
pub use batch::lemma_batching_conserves_records;
pub use batch::lemma_buffer_stays_small;
pub use batch::lemma_size_triggered_flush;
pub use batch::queued_entries;
pub use buffer::AtomicCircularBuffer;
pub use buffer::AtomicCircularBufferError;
pub use buffer::ring_slot;
pub use bridge::map_severity_to_otel_severity;
pub use bridge::severity_for_level;
pub use bridge::severity_for_level_name;
pub use bridge::update_severity;
pub use chain::LogManager;
pub use chain::LogProcessors;
pub use chain::Processor1;
pub use chain::Processor2;
pub use chain::chain_record_after;
pub use chain::flush_verdict;
pub use chain::lemma_chain_ordering;
pub use chain::record_has;
pub use config::BatchConfig;
pub use config::BatchConfigBuilder;
pub use config::OTEL_BLRP_EXPORT_TIMEOUT;
pub use config::OTEL_BLRP_EXPORT_TIMEOUT_DEFAULT;
pub use config::OTEL_BLRP_MAX_EXPORT_BATCH_SIZE;
pub use config::OTEL_BLRP_MAX_EXPORT_BATCH_SIZE_DEFAULT;
pub use config::OTEL_BLRP_MAX_QUEUE_SIZE;
pub use config::OTEL_BLRP_MAX_QUEUE_SIZE_DEFAULT;
pub use config::OTEL_BLRP_SCHEDULE_DELAY;
pub use config::OTEL_BLRP_SCHEDULE_DELAY_DEFAULT;
pub use errors::Component;
pub use errors::Error;
pub use errors::ExportResult;
pub use errors::LogError;
pub use errors::LogLevel;
pub use errors::LogResult;
pub use errors::Pillar;
pub use errors::TelemetryLog;
pub use errors::TelemetrySink;
pub use errors::handle_log;
pub use errors::is_runtime_log_level_enabled;
pub use errors::set_log_level;
pub use exporter::InMemoryLogsExporter;
pub use exporter::InMemoryLogsExporterBuilder;
pub use exporter::LogExporter;
pub use exporter::log_batch_view;
pub use limits::DEFAULT_MAX_ATTRIBUTE_VALUE_LENGTH;
pub use limits::DEFAULT_MAX_NUMBER_OF_ATTRIBUTES;
pub use limits::LogLimits;
pub use logger_config::Config;
pub use logger_config::DefaultEventEnabled;
pub use logger_config::EventEnabled;
pub use provider::DefaultKeywordLevelProvider;
pub use provider::EventExporter;
pub use provider::ExporterAsyncRuntime;
pub use provider::ExporterBuilder;
pub use provider::ExporterConfig;
pub use provider::KeywordLevelProvider;
pub use provider::LogsExporterBuilder;
pub use provider::RealTimeLogProcessor;
pub use provider::new_exporter;
pub use provider::valid_provider_name;
pub use record::AnyValue;
pub use record::InstrumentationScope;
pub use record::LogData;
pub use record::LogRecord;
pub use record::Resource;
pub use record::StringValue;
pub use record::TraceContext;
pub use record::any_value_eq;
pub use severity::Severity;
pub use simple::SimpleLogProcessor;
pub use span::SpanBatch;
pub use span::SpanData;
pub use span::SpanKind;
pub use span::Status;
