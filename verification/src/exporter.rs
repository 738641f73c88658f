//! The exporter contract, and an in-memory exporter for hosts and tests.

use vstd::prelude::*;

use crate::errors::ExportResult;
use crate::record::LogData;
use crate::record::LogDataSpec;
use crate::record::Resource;
use crate::record::ResourceSpec;
use crate::severity::Severity;

verus! {

/// The mathematical value of a batch of records.
pub open spec fn log_batch_view(batch: Seq<LogData>) -> Seq<LogDataSpec> {
    Seq::new(batch.len(), |i: int| batch[i]@)
}

/// The interface protocol-specific exporters implement so that they can be
/// plugged into the pipeline. An exporter is an external collaborator: the
/// pipeline guarantees serialized calls and imposes its own deadline around
/// `export`, and promises nothing about what an exporter does inside.
///
/// The four spec functions are the exporter's abstract state: the records
/// ever handed to it, the resource it was last given, whether it was shut
/// down, and the result of its most recent `export` call.
pub trait LogExporter: Sized {
    /// Every record ever handed to this exporter through `export`, in
    /// order, whether or not the corresponding call succeeded.
    spec fn received(&self) -> Seq<LogDataSpec>;

    /// The resource most recently handed to `set_resource`, if any.
    spec fn current_resource(&self) -> Option<ResourceSpec>;

    /// Whether `shutdown` has been called.
    spec fn is_shut_down(&self) -> bool;

    /// The result of the most recent `export` call.
    spec fn last_result(&self) -> ExportResult;

    /// Hand a batch of records to the exporter. The pipeline never calls
    /// this concurrently with itself for one exporter instance, and never
    /// after `shutdown`.
    fn export(&mut self, batch: &Vec<LogData>) -> (r: ExportResult)
        requires
            !old(self).is_shut_down(),
        ensures
            final(self).received() == old(self).received() + log_batch_view(batch@),
            final(self).current_resource() == old(self).current_resource(),
            !final(self).is_shut_down(),
            r == final(self).last_result(),
    ;

    /// Shut the exporter down. Idempotent; the pipeline calls `export` no
    /// more afterwards.
    fn shutdown(&mut self)
        ensures
            final(self).is_shut_down(),
            final(self).received() == old(self).received(),
            final(self).current_resource() == old(self).current_resource(),
            final(self).last_result() == old(self).last_result(),
    ;

    /// Replace the exporter's cached resource for all subsequent exports.
    /// Fire-and-forget: no result.
    fn set_resource(&mut self, resource: &Resource)
        ensures
            final(self).current_resource() == Some(resource@),
            final(self).received() == old(self).received(),
            final(self).is_shut_down() == old(self).is_shut_down(),
            final(self).last_result() == old(self).last_result(),
    ;

    /// Whether the exporter wants records of this severity from this
    /// target at all. The default accepts everything.
    fn event_enabled(&self, level: Severity, target: &str, name: &str) -> bool {
        true
    }
}

/// An exporter that stores everything it is handed in memory: the host for
/// tests and for pipelines whose sink is the process itself.
#[derive(Debug)]
pub struct InMemoryLogsExporter {
    /// Every record ever exported, never cleared.
    pub exported: Vec<LogData>,
    /// The records as a consumer sees them: cleared on shutdown unless
    /// `keep_records_on_shutdown` was chosen.
    pub records: Vec<LogData>,
    /// Whether `records` survives shutdown.
    pub keep_records_on_shutdown: bool,
    /// The result every `export` call returns.
    pub export_result: ExportResult,
    /// The resource last handed to `set_resource`.
    pub resource: Option<Resource>,
    /// Whether `shutdown` was called.
    pub shut_down: bool,
}

impl LogExporter for InMemoryLogsExporter {
    open spec fn received(&self) -> Seq<LogDataSpec> {
        log_batch_view(self.exported@)
    }

    open spec fn current_resource(&self) -> Option<ResourceSpec> {
        match self.resource {
            Some(r) => Some(r@),
            None => None,
        }
    }

    open spec fn is_shut_down(&self) -> bool {
        self.shut_down
    }

    open spec fn last_result(&self) -> ExportResult {
        self.export_result
    }

    fn export(&mut self, batch: &Vec<LogData>) -> (r: ExportResult) {
        let n = batch.len();
        let mut i: usize = 0;
        while i < n
            invariant
                n == batch@.len(),
                i <= n,
                self.exported@.len() == old(self).exported@.len() + i,
                self.records@.len() == old(self).records@.len() + i,
                forall|j: int|
                    0 <= j < old(self).exported@.len() ==> #[trigger] self.exported@[j] == old(
                        self,
                    ).exported@[j],
                forall|j: int|
                    0 <= j < i ==> #[trigger] self.exported@[old(self).exported@.len() + j]@
                        == batch@[j]@,
                self.keep_records_on_shutdown == old(self).keep_records_on_shutdown,
                self.export_result == old(self).export_result,
                self.resource == old(self).resource,
                self.shut_down == old(self).shut_down,
            decreases n - i,
        {
            let entry = batch[i].clone();
            self.records.push(entry.clone());
            self.exported.push(entry);
            i = i + 1;
        }
        proof {
            let ghost base = old(self).exported@.len() as int;
            assert forall|k: int| 0 <= k < self.exported@.len() implies self.exported@[k]@ == (old(
                self,
            ).received() + log_batch_view(batch@))[k] by {
                if k >= base {
                    assert(self.exported@[base + (k - base)]@ == batch@[k - base]@);
                }
            }
            assert(self.received() =~= old(self).received() + log_batch_view(batch@));
        }
        self.export_result
    }

    fn shutdown(&mut self) {
        self.shut_down = true;
        if !self.keep_records_on_shutdown {
            self.records.truncate(0);
        }
    }

    fn set_resource(&mut self, resource: &Resource) {
        self.resource = Some(resource.clone());
    }
}

impl InMemoryLogsExporter {
    /// The number of records ever exported.
    pub fn exported_count(&self) -> (n: usize)
        ensures
            n == self.received().len(),
    {
        self.exported.len()
    }

    /// The stored records, as a consumer sees them after any shutdown.
    pub fn get_emitted_logs(&self) -> (r: Vec<LogData>)
        ensures
            log_batch_view(r@) == log_batch_view(self.records@),
    {
        let n = self.records.len();
        let mut out: Vec<LogData> = Vec::new();
        let mut i: usize = 0;
        while i < n
            invariant
                n == self.records@.len(),
                i <= n,
                out@.len() == i,
                forall|j: int| 0 <= j < i ==> #[trigger] out@[j]@ == self.records@[j]@,
            decreases n - i,
        {
            out.push(self.records[i].clone());
            i = i + 1;
        }
        proof {
            assert(log_batch_view(out@) =~= log_batch_view(self.records@));
        }
        out
    }
}

/// A builder for [`InMemoryLogsExporter`] values.
#[derive(Debug)]
pub struct InMemoryLogsExporterBuilder {
    /// Whether the stored records survive shutdown.
    pub keep_records_on_shutdown: bool,
    /// The result every `export` call returns.
    pub export_result: ExportResult,
}

impl Default for InMemoryLogsExporterBuilder {
    /// A builder for an exporter that succeeds and clears its stored
    /// records on shutdown.
    fn default() -> (r: InMemoryLogsExporterBuilder)
        ensures
            !r.keep_records_on_shutdown,
            r.export_result is Ok,
    {
        InMemoryLogsExporterBuilder { keep_records_on_shutdown: false, export_result: Ok(()) }
    }
}

impl InMemoryLogsExporterBuilder {
    /// Keep the stored records across shutdown.
    pub fn keep_records_on_shutdown(self) -> (r: Self)
        ensures
            r.keep_records_on_shutdown,
            r.export_result == self.export_result,
    {
        InMemoryLogsExporterBuilder { keep_records_on_shutdown: true, ..self }
    }

    /// Make every `export` call return this result, to stand in for a
    /// failing or timed-out exporter.
    pub fn with_export_result(self, export_result: ExportResult) -> (r: Self)
        ensures
            r.export_result == export_result,
            r.keep_records_on_shutdown == self.keep_records_on_shutdown,
    {
        InMemoryLogsExporterBuilder { export_result, ..self }
    }

    /// Build the exporter, with nothing received yet.
    pub fn build(self) -> (r: InMemoryLogsExporter)
        ensures
            r.received() == Seq::<LogDataSpec>::empty(),
            r.current_resource() is None,
            !r.is_shut_down(),
            r.last_result() == self.export_result,
            r.keep_records_on_shutdown == self.keep_records_on_shutdown,
    {
        let r = InMemoryLogsExporter {
            exported: Vec::new(),
            records: Vec::new(),
            keep_records_on_shutdown: self.keep_records_on_shutdown,
            export_result: self.export_result,
            resource: None,
            shut_down: false,
        };
        proof {
            assert(r.received() =~= Seq::<LogDataSpec>::empty());
        }
        r
    }
}

} // verus!
