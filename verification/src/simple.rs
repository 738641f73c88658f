//! The pass-through processor: exports each record synchronously on the
//! caller's thread, as a one-element batch.

use vstd::prelude::*;

use crate::errors::Component;
use crate::errors::Error;
use crate::errors::LogError;
use crate::errors::LogLevel;
use crate::errors::LogResult;
use crate::errors::Pillar;
use crate::errors::TelemetryLog;
use crate::errors::TelemetrySink;
use crate::errors::handle_log;
use crate::exporter::LogExporter;
use crate::exporter::log_batch_view;
use crate::record::InstrumentationScope;
use crate::record::LogData;
use crate::record::LogDataSpec;
use crate::record::LogRecord;
use crate::record::Resource;
use crate::severity::Severity;

verus! {

/// A processor that passes each record to the exporter as soon as it is
/// emitted, without any batching; useful for debugging and testing. After
/// `shutdown`, `emit` becomes a silent no-op: it never panics and never
/// calls into a shut-down exporter.
#[derive(Debug)]
pub struct SimpleLogProcessor<E: LogExporter> {
    /// The exporter every record is handed to.
    pub exporter: E,
    /// Whether `shutdown` was called.
    pub is_shutdown: bool,
    /// Where export failures are reported, since `emit` has no caller to
    /// return them to.
    pub sink: TelemetrySink,
}

impl<E: LogExporter> SimpleLogProcessor<E> {
    /// The processor only ever calls into an exporter it has not shut
    /// down.
    pub open spec fn wf(self) -> bool {
        !self.is_shutdown ==> !self.exporter.is_shut_down()
    }

    /// A running processor around the given exporter.
    pub fn new(exporter: E) -> (r: SimpleLogProcessor<E>)
        requires
            !exporter.is_shut_down(),
        ensures
            r.wf(),
            !r.is_shutdown,
            r.exporter == exporter,
            r.sink.entries@.len() == 0,
    {
        SimpleLogProcessor { exporter, is_shutdown: false, sink: TelemetrySink::new() }
    }

    /// Hand one record to the exporter as a one-element batch, on the
    /// caller's thread. After shutdown this is a silent no-op. The record
    /// is never mutated; an export failure goes to the sink, never to the
    /// caller.
    pub fn emit(&mut self, record: &mut LogRecord, instrumentation: &InstrumentationScope)
        requires
            old(self).wf(),
        ensures
            final(self).wf(),
            *final(record) == *old(record),
            final(self).is_shutdown == old(self).is_shutdown,
            old(self).is_shutdown ==> *final(self) == *old(self),
            !old(self).is_shutdown ==> final(self).exporter.received() == old(
                self,
            ).exporter.received() + seq![
                LogDataSpec { record: old(record)@, instrumentation: instrumentation@ },
            ],
            !old(self).is_shutdown ==> final(self).exporter.current_resource() == old(
                self,
            ).exporter.current_resource(),
            (!old(self).is_shutdown && final(self).exporter.last_result() is Ok)
                ==> final(self).sink.entries@ == old(self).sink.entries@,
            (!old(self).is_shutdown && final(self).exporter.last_result() is Err)
                ==> final(self).sink.entries@.len() == old(self).sink.entries@.len() + 1,
    {
        if self.is_shutdown {
            return ;
        }
        let entry = LogData { record: record.clone(), instrumentation: instrumentation.clone() };
        let mut batch: Vec<LogData> = Vec::new();
        batch.push(entry);
        proof {
            assert(log_batch_view(batch@) =~= seq![
                LogDataSpec { record: old(record)@, instrumentation: instrumentation@ },
            ]);
        }
        let result = self.exporter.export(&batch);
        if let Err(e) = result {
            handle_log(
                &mut self.sink,
                TelemetryLog {
                    level: LogLevel::Error,
                    pillar: Pillar::Logs,
                    component: Component::Exporter,
                    message: Error::Log(e).message(),
                },
            );
        }
    }

    /// Nothing is buffered, so there is nothing to flush.
    pub fn force_flush(&self) -> (r: LogResult)
        ensures
            r == Ok::<(), LogError>(()),
    {
        Ok(())
    }

    /// Mark the processor shut down and forward to the exporter's
    /// `shutdown`. Every later `emit` is a no-op.
    pub fn shutdown(&mut self) -> (r: LogResult)
        requires
            old(self).wf(),
        ensures
            final(self).wf(),
            final(self).is_shutdown,
            final(self).exporter.is_shut_down(),
            final(self).exporter.received() == old(self).exporter.received(),
            final(self).sink.entries@ == old(self).sink.entries@,
            r == Ok::<(), LogError>(()),
    {
        self.is_shutdown = true;
        self.exporter.shutdown();
        Ok(())
    }

    /// Hand the exporter a new resource snapshot.
    pub fn set_resource(&mut self, resource: &Resource)
        requires
            old(self).wf(),
        ensures
            final(self).wf(),
            final(self).is_shutdown == old(self).is_shutdown,
            final(self).exporter.current_resource() == Some(resource@),
            final(self).exporter.received() == old(self).exporter.received(),
            final(self).sink.entries@ == old(self).sink.entries@,
    {
        self.exporter.set_resource(resource);
    }

    /// Whether records of this severity are worth producing at all. The
    /// pass-through processor accepts everything.
    pub fn event_enabled(&self, _level: Severity, _target: &str, _name: &str) -> (r: bool)
        ensures
            r == true,
    {
        true
    }
}

} // verus!
