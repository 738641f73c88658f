//! The batching processor: a bounded queue decouples record emission from
//! exporter calls, and a worker drains the queue, accumulates a buffer,
//! and exports it in batches.
//!
//! In a concurrent deployment the queue is a bounded channel and the
//! worker runs beside the producers, woken by messages and timer ticks.
//! The worker's decisions are the verified state machine of this module:
//! the host drives it by calling [`BatchLogProcessor::poll`] when the
//! worker would run and [`BatchLogProcessor::tick`] when its timer would
//! fire, and runs each real export under the configured deadline. Flush
//! and shutdown block their caller by design, so here they drain
//! synchronously and hand back what the worker would have sent on the
//! reply channel.

use vstd::prelude::*;

use crate::config::BatchConfig;
use crate::errors::Component;
use crate::errors::Error;
use crate::errors::ExportResult;
use crate::errors::LogError;
use crate::errors::LogLevel;
use crate::errors::LogResult;
use crate::errors::Pillar;
use crate::errors::TelemetryLog;
use crate::errors::TelemetrySink;
use crate::errors::handle_log;
use crate::exporter::LogExporter;
use crate::exporter::log_batch_view;
use crate::record::InstrumentationScope;
use crate::record::LogData;
use crate::record::LogDataSpec;
use crate::record::LogRecord;
use crate::record::Resource;
use crate::record::ResourceSpec;

verus! {

/// A message from a producer-facing call to the worker. Flush and
/// shutdown are synchronous here, so only the fire-and-forget messages
/// are queued.
#[derive(Debug)]
pub enum BatchMessage {
    /// A record to buffer and eventually export.
    ExportLog(LogData),
    /// A resource snapshot to forward to the exporter.
    SetResource(Resource),
}

/// The records carried by a queue of messages, in queue order.
pub open spec fn queued_entries(q: Seq<BatchMessage>) -> Seq<LogDataSpec>
    decreases q.len(),
{
    if q.len() == 0 {
        Seq::empty()
    } else {
        match q[0] {
            BatchMessage::ExportLog(d) => seq![d@] + queued_entries(q.skip(1)),
            BatchMessage::SetResource(_) => queued_entries(q.skip(1)),
        }
    }
}

/// The resource the exporter holds after a queue of messages is drained,
/// starting from `current`.
pub open spec fn last_resource(q: Seq<BatchMessage>, current: Option<ResourceSpec>) -> Option<
    ResourceSpec,
>
    decreases q.len(),
{
    if q.len() == 0 {
        current
    } else {
        match q[0] {
            BatchMessage::ExportLog(_) => last_resource(q.skip(1), current),
            BatchMessage::SetResource(r) => last_resource(q.skip(1), Some(r@)),
        }
    }
}

/// The records the worker exports while it appends `incoming` to a buffer
/// that held `buf`, exporting the whole buffer whenever its length
/// reaches `b` — in export order, concatenated.
pub open spec fn exported_after(
    buf: Seq<LogDataSpec>,
    incoming: Seq<LogDataSpec>,
    b: nat,
) -> Seq<LogDataSpec>
    decreases incoming.len(),
{
    if incoming.len() == 0 {
        Seq::empty()
    } else {
        let grown = buf.push(incoming[0]);
        if grown.len() == b {
            grown + exported_after(Seq::empty(), incoming.skip(1), b)
        } else {
            exported_after(grown, incoming.skip(1), b)
        }
    }
}

/// The buffer the worker is left with after appending `incoming` as
/// [`exported_after`] describes.
pub open spec fn buffer_after(
    buf: Seq<LogDataSpec>,
    incoming: Seq<LogDataSpec>,
    b: nat,
) -> Seq<LogDataSpec>
    decreases incoming.len(),
{
    if incoming.len() == 0 {
        buf
    } else {
        let grown = buf.push(incoming[0]);
        if grown.len() == b {
            buffer_after(Seq::empty(), incoming.skip(1), b)
        } else {
            buffer_after(grown, incoming.skip(1), b)
        }
    }
}

/// Batching loses no record and keeps their order: what was exported,
/// followed by what is still buffered, is exactly the old buffer followed
/// by everything that arrived.
pub proof fn lemma_batching_conserves_records(
    buf: Seq<LogDataSpec>,
    incoming: Seq<LogDataSpec>,
    b: nat,
)
    ensures
        exported_after(buf, incoming, b) + buffer_after(buf, incoming, b) == buf + incoming,
    decreases incoming.len(),
{
    if incoming.len() == 0 {
        assert(exported_after(buf, incoming, b) + buffer_after(buf, incoming, b) =~= buf + incoming);
    } else {
        let grown = buf.push(incoming[0]);
        let rest = incoming.skip(1);
        if grown.len() == b {
            lemma_batching_conserves_records(Seq::empty(), rest, b);
            assert(exported_after(Seq::empty(), rest, b) + buffer_after(Seq::empty(), rest, b)
                =~= rest);
            assert((grown + exported_after(Seq::empty(), rest, b)) + buffer_after(
                Seq::empty(),
                rest,
                b,
            ) =~= grown + (exported_after(Seq::empty(), rest, b) + buffer_after(
                Seq::empty(),
                rest,
                b,
            )));
            assert(grown + rest =~= buf + incoming);
        } else {
            lemma_batching_conserves_records(grown, rest, b);
            assert(grown + rest =~= buf + incoming);
        }
    }
}

/// A buffer below the batch-size threshold stays below it.
pub proof fn lemma_buffer_stays_small(buf: Seq<LogDataSpec>, incoming: Seq<LogDataSpec>, b: nat)
    requires
        b > 0,
        buf.len() < b,
    ensures
        buffer_after(buf, incoming, b).len() < b,
    decreases incoming.len(),
{
    if incoming.len() > 0 {
        let grown = buf.push(incoming[0]);
        let rest = incoming.skip(1);
        if grown.len() == b {
            lemma_buffer_stays_small(Seq::empty(), rest, b);
        } else {
            lemma_buffer_stays_small(grown, rest, b);
        }
    }
}

/// When the arriving records fill the buffer to exactly the threshold,
/// one batch holding all of them is exported at once and the buffer is
/// left empty: the size trigger fires independent of any timer.
pub proof fn lemma_size_triggered_flush(buf: Seq<LogDataSpec>, incoming: Seq<LogDataSpec>, b: nat)
    requires
        b > 0,
        buf.len() < b,
        buf.len() + incoming.len() == b,
    ensures
        exported_after(buf, incoming, b) == buf + incoming,
        buffer_after(buf, incoming, b) == Seq::<LogDataSpec>::empty(),
    decreases incoming.len(),
{
    let grown = buf.push(incoming[0]);
    let rest = incoming.skip(1);
    if grown.len() == b {
        assert(rest.len() == 0);
        assert(exported_after(Seq::empty(), rest, b) =~= Seq::<LogDataSpec>::empty());
        assert(grown + exported_after(Seq::empty(), rest, b) =~= buf + incoming);
        assert(buffer_after(buf, incoming, b) == buffer_after(Seq::empty(), rest, b));
        assert(buffer_after(Seq::empty(), rest, b) =~= Seq::<LogDataSpec>::empty());
    } else {
        lemma_size_triggered_flush(grown, rest, b);
        assert(grown + rest =~= buf + incoming);
    }
}

/// A processor that buffers records behind a bounded queue and exports
/// them in batches: by size trigger, by timer tick, or on flush and
/// shutdown. The producer-facing `emit` never blocks and never panics;
/// under pressure it drops the record and reports the drop to the sink.
#[derive(Debug)]
pub struct BatchLogProcessor<E: LogExporter> {
    /// The bounded message queue between producers and the worker; never
    /// longer than `config.max_queue_size`.
    pub queue: Vec<BatchMessage>,
    /// The worker's private accumulation buffer; its length stays below
    /// `config.max_export_batch_size`.
    pub buffer: Vec<LogData>,
    /// The exporter, called only by the worker.
    pub exporter: E,
    /// The validated configuration.
    pub config: BatchConfig,
    /// Whether the worker has terminated; terminal.
    pub terminated: bool,
    /// Where errors without a synchronous caller are reported.
    pub sink: TelemetrySink,
}

impl<E: LogExporter> BatchLogProcessor<E> {
    /// The batch-size threshold, as a mathematical number.
    pub open spec fn threshold(self) -> nat {
        self.config.max_export_batch_size as nat
    }

    /// The processor's invariant: the queue respects its bound, the
    /// buffer sits below the batch-size threshold, the exporter is live
    /// until the worker terminates, and termination leaves nothing
    /// behind.
    pub open spec fn wf(self) -> bool {
        &&& self.queue@.len() <= self.config.max_queue_size
        &&& (self.threshold() > 0 ==> self.buffer@.len() < self.threshold())
        &&& (!self.terminated ==> !self.exporter.is_shut_down())
        &&& (self.terminated ==> self.queue@.len() == 0 && self.buffer@.len() == 0
            && self.exporter.is_shut_down())
    }

    /// Every record accepted and not yet exported, in arrival order: the
    /// worker's buffer, then the queue.
    pub open spec fn pending(self) -> Seq<LogDataSpec> {
        log_batch_view(self.buffer@) + queued_entries(self.queue@)
    }

    /// A running processor around the given exporter, with nothing
    /// queued, buffered, or reported.
    pub fn new(exporter: E, config: BatchConfig) -> (r: BatchLogProcessor<E>)
        requires
            !exporter.is_shut_down(),
        ensures
            r.wf(),
            !r.terminated,
            r.exporter == exporter,
            r.config == config,
            r.queue@.len() == 0,
            r.buffer@.len() == 0,
            r.sink.entries@.len() == 0,
            r.pending() == Seq::<LogDataSpec>::empty(),
    {
        let r = BatchLogProcessor {
            queue: Vec::new(),
            buffer: Vec::new(),
            exporter,
            config,
            terminated: false,
            sink: TelemetrySink::new(),
        };
        proof {
            assert(r.pending() =~= Seq::<LogDataSpec>::empty());
        }
        r
    }

    /// Create a new batch processor builder around an exporter.
    pub fn builder(exporter: E) -> (r: BatchLogProcessorBuilder<E>)
        ensures
            r.exporter == exporter,
            r.config == BatchConfig::spec_default(),
    {
        BatchLogProcessorBuilder { exporter, config: BatchConfig::default() }
    }

    /// Try to enqueue one record without ever blocking the caller. After
    /// shutdown this is inert; when the queue is full the record is
    /// dropped; both are reported to the sink, never to the caller, and
    /// neither touches the exporter.
    pub fn emit(&mut self, record: &LogRecord, instrumentation: &InstrumentationScope)
        requires
            old(self).wf(),
        ensures
            final(self).wf(),
            final(self).exporter == old(self).exporter,
            final(self).buffer@ == old(self).buffer@,
            final(self).config == old(self).config,
            final(self).terminated == old(self).terminated,
            final(self).sink.level == old(self).sink.level,
            old(self).terminated ==> (final(self).queue@ == old(self).queue@
                && final(self).sink.entries@.len() == old(self).sink.entries@.len() + 1),
            (!old(self).terminated && old(self).queue@.len() == old(self).config.max_queue_size)
                ==> (final(self).queue@ == old(self).queue@
                && final(self).sink.entries@.len() == old(self).sink.entries@.len() + 1),
            (!old(self).terminated && old(self).queue@.len() < old(self).config.max_queue_size)
                ==> (final(self).queue@.len() == old(self).queue@.len() + 1
                && queued_entries(final(self).queue@) == queued_entries(old(self).queue@).push(
                    (LogDataSpec { record: record@, instrumentation: instrumentation@ }),
                )
                && last_resource(final(self).queue@, old(self).exporter.current_resource())
                    == last_resource(old(self).queue@, old(self).exporter.current_resource())
                && final(self).sink.entries@ == old(self).sink.entries@),
    {
        if self.terminated {
            handle_log(
                &mut self.sink,
                TelemetryLog {
                    level: LogLevel::Error,
                    pillar: Pillar::Logs,
                    component: Component::Processor,
                    message: Error::Log(LogError::AlreadyShutdown).message(),
                },
            );
            return ;
        }
        if self.queue.len() == self.config.max_queue_size {
            handle_log(
                &mut self.sink,
                TelemetryLog {
                    level: LogLevel::Error,
                    pillar: Pillar::Logs,
                    component: Component::Processor,
                    message: Error::Log(LogError::QueueFull).message(),
                },
            );
            return ;
        }
        let entry = LogData { record: record.clone(), instrumentation: instrumentation.clone() };
        self.queue.push(BatchMessage::ExportLog(entry));
        proof {
            lemma_queue_push_entry(
                old(self).queue@,
                self.queue@,
                LogDataSpec { record: record@, instrumentation: instrumentation@ },
                old(self).exporter.current_resource(),
            );
        }
    }

    /// Enqueue a resource snapshot for the worker to forward to the
    /// exporter. Fire-and-forget: after shutdown, or when the queue is
    /// full, the snapshot is silently dropped.
    pub fn set_resource(&mut self, resource: &Resource)
        requires
            old(self).wf(),
        ensures
            final(self).wf(),
            final(self).exporter == old(self).exporter,
            final(self).buffer@ == old(self).buffer@,
            final(self).config == old(self).config,
            final(self).terminated == old(self).terminated,
            final(self).sink == old(self).sink,
            (old(self).terminated || old(self).queue@.len() == old(self).config.max_queue_size)
                ==> final(self).queue@ == old(self).queue@,
            (!old(self).terminated && old(self).queue@.len() < old(self).config.max_queue_size)
                ==> (final(self).queue@.len() == old(self).queue@.len() + 1
                && queued_entries(final(self).queue@) == queued_entries(old(self).queue@)
                && last_resource(final(self).queue@, old(self).exporter.current_resource())
                    == Some(resource@)),
    {
        if self.terminated {
            return ;
        }
        if self.queue.len() == self.config.max_queue_size {
            return ;
        }
        self.queue.push(BatchMessage::SetResource(resource.clone()));
        proof {
            lemma_queue_push_resource(
                old(self).queue@,
                self.queue@,
                resource@,
                old(self).exporter.current_resource(),
            );
        }
    }

    /// Export the whole buffer as one batch, leaving it empty. An empty
    /// buffer is a cheap no-op that never reaches the exporter. The batch
    /// is gone afterwards whatever the exporter said: there is no retry
    /// and no requeue. The host runs the real exporter call under the
    /// configured `max_export_timeout`; a lost race arrives here as
    /// `Err(ExportTimedOut)`.
    fn export_buffer(&mut self) -> (r: ExportResult)
        requires
            !old(self).exporter.is_shut_down(),
        ensures
            final(self).queue == old(self).queue,
            final(self).config == old(self).config,
            final(self).terminated == old(self).terminated,
            final(self).sink == old(self).sink,
            final(self).buffer@.len() == 0,
            !final(self).exporter.is_shut_down(),
            final(self).exporter.current_resource() == old(self).exporter.current_resource(),
            final(self).exporter.received() == old(self).exporter.received() + log_batch_view(
                old(self).buffer@,
            ),
            old(self).buffer@.len() == 0 ==> final(self).exporter == old(self).exporter && r == Ok::<(), LogError>(()),
            old(self).buffer@.len() > 0 ==> r == final(self).exporter.last_result(),
    {
        if self.buffer.len() == 0 {
            proof {
                assert(self.exporter.received() =~= self.exporter.received() + log_batch_view(
                    self.buffer@,
                ));
            }
            return Ok(());
        }
        let mut batch: Vec<LogData> = Vec::new();
        core::mem::swap(&mut batch, &mut self.buffer);
        self.exporter.export(&batch)
    }

    /// Run the worker until the queue is drained: buffer each queued
    /// record, export the buffer whenever it reaches the batch-size
    /// threshold, and forward each queued resource snapshot; export
    /// failures go to the sink. What reaches the exporter, and what
    /// stays buffered, is exactly what [`exported_after`] and
    /// [`buffer_after`] say.
    pub fn poll(&mut self)
        requires
            old(self).wf(),
        ensures
            final(self).wf(),
            final(self).config == old(self).config,
            final(self).terminated == old(self).terminated,
            final(self).queue@.len() == 0,
            final(self).sink.level == old(self).sink.level,
            old(self).sink.entries@.is_prefix_of(final(self).sink.entries@),
            old(self).terminated ==> *final(self) == *old(self),
            !old(self).terminated ==> final(self).exporter.received()
                == old(self).exporter.received() + exported_after(
                log_batch_view(old(self).buffer@),
                queued_entries(old(self).queue@),
                old(self).threshold(),
            ),
            !old(self).terminated ==> log_batch_view(final(self).buffer@) == buffer_after(
                log_batch_view(old(self).buffer@),
                queued_entries(old(self).queue@),
                old(self).threshold(),
            ),
            !old(self).terminated ==> final(self).exporter.current_resource() == last_resource(
                old(self).queue@,
                old(self).exporter.current_resource(),
            ),
            !old(self).terminated ==> !final(self).exporter.is_shut_down(),
    {
        if self.terminated {
            return ;
        }
        let ghost b = old(self).threshold();
        let ghost buf0 = log_batch_view(old(self).buffer@);
        let ghost q0 = queued_entries(old(self).queue@);
        let ghost res0 = old(self).exporter.current_resource();
        let mut msgs: Vec<BatchMessage> = Vec::new();
        core::mem::swap(&mut msgs, &mut self.queue);
        proof {
            assert(msgs@.skip(0) =~= msgs@);
            assert(old(self).sink.entries@.is_prefix_of(self.sink.entries@));
        }
        let n = msgs.len();
        let mut i: usize = 0;
        while i < n
            invariant
                n == msgs@.len(),
                i <= n,
                self.queue@.len() == 0,
                !self.terminated,
                self.config == old(self).config,
                !self.exporter.is_shut_down(),
                b > 0 ==> self.buffer@.len() < b,
                self.sink.level == old(self).sink.level,
                old(self).sink.entries@.is_prefix_of(self.sink.entries@),
                self.exporter.received() + exported_after(
                    log_batch_view(self.buffer@),
                    queued_entries(msgs@.skip(i as int)),
                    b,
                ) == old(self).exporter.received() + exported_after(buf0, q0, b),
                buffer_after(log_batch_view(self.buffer@), queued_entries(msgs@.skip(i as int)), b)
                    == buffer_after(buf0, q0, b),
                last_resource(msgs@.skip(i as int), self.exporter.current_resource())
                    == last_resource(msgs@, res0),
            decreases n - i,
        {
            proof {
                assert(msgs@.skip(i as int).skip(1) =~= msgs@.skip(i as int + 1));
                assert(msgs@.skip(i as int)[0] == msgs@[i as int]);
            }
            let ghost buf_entry = log_batch_view(self.buffer@);
            let ghost received_entry = self.exporter.received();
            let ghost buf_res = self.exporter.current_resource();
            match &msgs[i] {
                BatchMessage::ExportLog(data) => {
                    let entry = data.clone();
                    self.buffer.push(entry);
                    proof {
                        let d = msgs@[i as int]->ExportLog_0@;
                        let rest = queued_entries(msgs@.skip(i as int + 1));
                        assert(log_batch_view(self.buffer@) =~= buf_entry.push(d));
                        assert(queued_entries(msgs@.skip(i as int)) == seq![d] + rest);
                        assert((seq![d] + rest)[0] == d);
                        assert((seq![d] + rest).skip(1) =~= rest);
                    }
                    if self.buffer.len() == self.config.max_export_batch_size {
                        let ghost full = log_batch_view(self.buffer@);
                        let result = self.export_buffer();
                        if let Err(e) = result {
                            handle_log(
                                &mut self.sink,
                                TelemetryLog {
                                    level: LogLevel::Error,
                                    pillar: Pillar::Logs,
                                    component: Component::Exporter,
                                    message: Error::Log(e).message(),
                                },
                            );
                        }
                        proof {
                            assert(log_batch_view(self.buffer@) =~= Seq::<LogDataSpec>::empty());
                            assert(received_entry + (full + exported_after(
                                Seq::empty(),
                                queued_entries(msgs@.skip(i as int + 1)),
                                b,
                            )) =~= (received_entry + full) + exported_after(
                                Seq::empty(),
                                queued_entries(msgs@.skip(i as int + 1)),
                                b,
                            ));
                        }
                    }
                },
                BatchMessage::SetResource(resource) => {
                    let snapshot = resource.clone();
                    self.exporter.set_resource(&snapshot);
                    proof {
                        assert(queued_entries(msgs@.skip(i as int)) == queued_entries(
                            msgs@.skip(i as int + 1),
                        ));
                        assert(last_resource(msgs@.skip(i as int), buf_res) == last_resource(
                            msgs@.skip(i as int + 1),
                            Some(snapshot@),
                        ));
                    }
                },
            }
            i = i + 1;
        }
        proof {
            assert(msgs@.skip(n as int) =~= Seq::<BatchMessage>::empty());
            assert(exported_after(
                log_batch_view(self.buffer@),
                queued_entries(msgs@.skip(n as int)),
                b,
            ) =~= Seq::<LogDataSpec>::empty());
            assert(self.exporter.received() =~= self.exporter.received() + Seq::<
                LogDataSpec,
            >::empty());
            assert(old(self).exporter.received() + exported_after(buf0, q0, b) == self.exporter.received());
        }
    }

    /// The timer fired: drain the queue as [`BatchLogProcessor::poll`]
    /// does, then export whatever is buffered, regardless of size. With
    /// the worker terminated the tick does nothing. Errors go to the
    /// sink: a tick has no caller to return them to.
    pub fn tick(&mut self)
        requires
            old(self).wf(),
        ensures
            final(self).wf(),
            final(self).config == old(self).config,
            final(self).terminated == old(self).terminated,
            final(self).sink.level == old(self).sink.level,
            old(self).sink.entries@.is_prefix_of(final(self).sink.entries@),
            old(self).terminated ==> *final(self) == *old(self),
            !old(self).terminated ==> final(self).exporter.received()
                == old(self).exporter.received() + old(self).pending(),
            !old(self).terminated ==> (final(self).queue@.len() == 0
                && final(self).buffer@.len() == 0),
            !old(self).terminated ==> final(self).exporter.current_resource() == last_resource(
                old(self).queue@,
                old(self).exporter.current_resource(),
            ),
            !old(self).terminated ==> !final(self).exporter.is_shut_down(),
    {
        if self.terminated {
            return ;
        }
        proof {
            lemma_batching_conserves_records(
                log_batch_view(old(self).buffer@),
                queued_entries(old(self).queue@),
                old(self).threshold(),
            );
        }
        self.poll();
        let result = self.export_buffer();
        if let Err(e) = result {
            handle_log(
                &mut self.sink,
                TelemetryLog {
                    level: LogLevel::Error,
                    pillar: Pillar::Logs,
                    component: Component::Exporter,
                    message: Error::Log(e).message(),
                },
            );
        }
    }

    /// Drain and export everything pending, and return the result of the
    /// final export to the caller: success once the exporter accepted
    /// what was buffered, `Err(AlreadyShutdown)` immediately after the
    /// worker terminated, and the exporter's own verdict — a failure or
    /// a lost deadline race — as it stands. The call returns only after
    /// the exporter has seen every pending record.
    pub fn force_flush(&mut self) -> (r: LogResult)
        requires
            old(self).wf(),
        ensures
            final(self).wf(),
            final(self).config == old(self).config,
            final(self).terminated == old(self).terminated,
            final(self).sink.level == old(self).sink.level,
            old(self).sink.entries@.is_prefix_of(final(self).sink.entries@),
            old(self).terminated ==> (*final(self) == *old(self) && r == Err::<
                (),
                LogError,
            >(LogError::AlreadyShutdown)),
            !old(self).terminated ==> final(self).exporter.received()
                == old(self).exporter.received() + old(self).pending(),
            !old(self).terminated ==> (final(self).queue@.len() == 0
                && final(self).buffer@.len() == 0),
            !old(self).terminated ==> final(self).exporter.current_resource() == last_resource(
                old(self).queue@,
                old(self).exporter.current_resource(),
            ),
            !old(self).terminated ==> !final(self).exporter.is_shut_down(),
            (!old(self).terminated && buffer_after(
                log_batch_view(old(self).buffer@),
                queued_entries(old(self).queue@),
                old(self).threshold(),
            ).len() == 0) ==> r == Ok::<(), LogError>(()),
            (!old(self).terminated && buffer_after(
                log_batch_view(old(self).buffer@),
                queued_entries(old(self).queue@),
                old(self).threshold(),
            ).len() > 0) ==> r == final(self).exporter.last_result(),
    {
        if self.terminated {
            return Err(LogError::AlreadyShutdown);
        }
        proof {
            lemma_batching_conserves_records(
                log_batch_view(old(self).buffer@),
                queued_entries(old(self).queue@),
                old(self).threshold(),
            );
        }
        self.poll();
        self.export_buffer()
    }

    /// Export everything pending, shut the exporter down, and terminate
    /// the worker: the only transition into the terminal state. The
    /// result is the final export's, as in
    /// [`BatchLogProcessor::force_flush`]; once terminated, a second
    /// call returns `Err(AlreadyShutdown)` and changes nothing, and
    /// later `emit` calls are inert.
    pub fn shutdown(&mut self) -> (r: LogResult)
        requires
            old(self).wf(),
        ensures
            final(self).wf(),
            final(self).config == old(self).config,
            final(self).terminated,
            final(self).sink.level == old(self).sink.level,
            old(self).sink.entries@.is_prefix_of(final(self).sink.entries@),
            old(self).terminated ==> (*final(self) == *old(self) && r == Err::<
                (),
                LogError,
            >(LogError::AlreadyShutdown)),
            !old(self).terminated ==> final(self).exporter.received()
                == old(self).exporter.received() + old(self).pending(),
            !old(self).terminated ==> final(self).exporter.is_shut_down(),
            !old(self).terminated ==> final(self).exporter.current_resource() == last_resource(
                old(self).queue@,
                old(self).exporter.current_resource(),
            ),
            (!old(self).terminated && buffer_after(
                log_batch_view(old(self).buffer@),
                queued_entries(old(self).queue@),
                old(self).threshold(),
            ).len() == 0) ==> r == Ok::<(), LogError>(()),
            (!old(self).terminated && buffer_after(
                log_batch_view(old(self).buffer@),
                queued_entries(old(self).queue@),
                old(self).threshold(),
            ).len() > 0) ==> r == final(self).exporter.last_result(),
    {
        if self.terminated {
            return Err(LogError::AlreadyShutdown);
        }
        proof {
            lemma_batching_conserves_records(
                log_batch_view(old(self).buffer@),
                queued_entries(old(self).queue@),
                old(self).threshold(),
            );
        }
        self.poll();
        let r = self.export_buffer();
        self.exporter.shutdown();
        self.terminated = true;
        r
    }
}

/// Pushing a record message extends the queue's records by that record
/// and leaves its resource outcome alone.
proof fn lemma_queue_push_entry(
    q: Seq<BatchMessage>,
    pushed: Seq<BatchMessage>,
    entry: LogDataSpec,
    current: Option<ResourceSpec>,
)
    requires
        pushed.len() == q.len() + 1,
        forall|j: int| 0 <= j < q.len() ==> pushed[j] == q[j],
        pushed[q.len() as int] is ExportLog,
        pushed[q.len() as int]->ExportLog_0@ == entry,
    ensures
        queued_entries(pushed) == queued_entries(q).push(entry),
        last_resource(pushed, current) == last_resource(q, current),
    decreases q.len(),
{
    if q.len() == 0 {
        assert(pushed.skip(1) =~= Seq::<BatchMessage>::empty());
        assert(pushed.skip(1).len() == 0);
        assert(queued_entries(pushed.skip(1)) =~= Seq::<LogDataSpec>::empty());
        assert(queued_entries(pushed) == seq![pushed[0]->ExportLog_0@] + queued_entries(
            pushed.skip(1),
        ));
        assert(queued_entries(pushed) =~= queued_entries(q).push(entry));
        assert(last_resource(pushed, current) == last_resource(pushed.skip(1), current));
        assert(last_resource(pushed.skip(1), current) == current);
    } else {
        assert(pushed[0] == q[0]);
        assert forall|j: int| 0 <= j < q.skip(1).len() implies pushed.skip(1)[j] == q.skip(1)[j] by {
            assert(pushed.skip(1)[j] == pushed[j + 1]);
            assert(q.skip(1)[j] == q[j + 1]);
        }
        assert(pushed.skip(1)[q.len() - 1] == pushed[q.len() as int]);
        if q[0] is SetResource {
            lemma_queue_push_entry(q.skip(1), pushed.skip(1), entry, Some(q[0]->SetResource_0@));
        } else {
            lemma_queue_push_entry(q.skip(1), pushed.skip(1), entry, current);
        }
        assert(queued_entries(pushed) =~= queued_entries(q).push(entry));
    }
}

/// Pushing a resource message leaves the queue's records alone and makes
/// that resource the queue's outcome.
proof fn lemma_queue_push_resource(
    q: Seq<BatchMessage>,
    pushed: Seq<BatchMessage>,
    resource: ResourceSpec,
    current: Option<ResourceSpec>,
)
    requires
        pushed.len() == q.len() + 1,
        forall|j: int| 0 <= j < q.len() ==> pushed[j] == q[j],
        pushed[q.len() as int] is SetResource,
        pushed[q.len() as int]->SetResource_0@ == resource,
    ensures
        queued_entries(pushed) == queued_entries(q),
        last_resource(pushed, current) == Some(resource),
    decreases q.len(),
{
    if q.len() == 0 {
        assert(pushed.skip(1) =~= Seq::<BatchMessage>::empty());
        assert(pushed.skip(1).len() == 0);
        assert(queued_entries(pushed.skip(1)) =~= Seq::<LogDataSpec>::empty());
        assert(queued_entries(pushed) =~= queued_entries(q));
        assert(last_resource(pushed, current) == last_resource(pushed.skip(1), Some(resource)));
        assert(last_resource(pushed.skip(1), Some(resource)) == Some(resource));
    } else {
        assert(pushed[0] == q[0]);
        assert forall|j: int| 0 <= j < q.skip(1).len() implies pushed.skip(1)[j] == q.skip(1)[j] by {
            assert(pushed.skip(1)[j] == pushed[j + 1]);
            assert(q.skip(1)[j] == q[j + 1]);
        }
        assert(pushed.skip(1)[q.len() - 1] == pushed[q.len() as int]);
        if q[0] is SetResource {
            lemma_queue_push_resource(q.skip(1), pushed.skip(1), resource, Some(q[0]->SetResource_0@));
        } else {
            lemma_queue_push_resource(q.skip(1), pushed.skip(1), resource, current);
        }
        assert(queued_entries(pushed) =~= queued_entries(q));
    }
}

/// A builder for [`BatchLogProcessor`] values.
#[derive(Debug)]
pub struct BatchLogProcessorBuilder<E: LogExporter> {
    /// The exporter the processor will own.
    pub exporter: E,
    /// The configuration the processor will run under.
    pub config: BatchConfig,
}

impl<E: LogExporter> BatchLogProcessorBuilder<E> {
    /// Replace the builder's configuration.
    pub fn with_batch_config(self, config: BatchConfig) -> (r: Self)
        ensures
            r.config == config,
            r.exporter == self.exporter,
    {
        BatchLogProcessorBuilder { config, ..self }
    }

    /// Build the processor.
    pub fn build(self) -> (r: BatchLogProcessor<E>)
        requires
            !self.exporter.is_shut_down(),
        ensures
            r.wf(),
            !r.terminated,
            r.exporter == self.exporter,
            r.config == self.config,
            r.queue@.len() == 0,
            r.buffer@.len() == 0,
            r.sink.entries@.len() == 0,
    {
        BatchLogProcessor::new(self.exporter, self.config)
    }
}

} // verus!
