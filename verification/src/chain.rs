//! The processor chain: an ordered, heterogeneous collection of
//! processors through which every emitted record passes, in registration
//! order, each stage seeing the mutations of the stages before it.

use vstd::prelude::*;

use crate::batch::BatchLogProcessor;
use crate::batch::buffer_after;
use crate::batch::last_resource;
use crate::batch::queued_entries;
use crate::exporter::log_batch_view;
use crate::errors::LogError;
use crate::errors::LogResult;
use crate::exporter::LogExporter;
use crate::record::AnyValue;
use crate::record::AnyValueSpec;
use crate::record::InstrumentationScope;
use crate::record::LogDataSpec;
use crate::record::LogRecord;
use crate::record::LogRecordSpec;
use crate::record::Resource;
use crate::record::ScopeSpec;
use crate::severity::Severity;
use crate::simple::SimpleLogProcessor;

verus! {

/// Whether a record carries this attribute.
pub open spec fn record_has(rec: LogRecordSpec, key: Seq<char>, value: AnyValueSpec) -> bool {
    exists|i: int| 0 <= i < rec.attributes.len() && rec.attributes[i] == (key, value)
}

/// An enrichment stage: adds one fixed attribute to every record that
/// passes through, for the stages and exporters downstream to see.
#[derive(Debug)]
pub struct Processor1 {
    /// The key of the attribute this stage adds.
    pub key: String,
    /// Its value.
    pub value: AnyValue,
}

impl Processor1 {
    /// Add this stage's attribute to the record.
    pub fn emit(&mut self, record: &mut LogRecord, _instrumentation: &InstrumentationScope)
        ensures
            *final(self) == *old(self),
            final(record)@ == (LogRecordSpec {
                attributes: old(record)@.attributes.push((old(self).key@, old(self).value@)),
                ..old(record)@
            }),
    {
        let key = self.key.clone();
        let value = self.value.clone();
        record.add_attribute(key, value);
    }
}

/// An inspection stage: checks whether the expected attribute is already
/// present — set by some stage upstream — and then adds one of its own.
#[derive(Debug)]
pub struct Processor2 {
    /// The key this stage expects to find.
    pub expected_key: String,
    /// The value it expects under that key.
    pub expected_value: AnyValue,
    /// The key of the attribute this stage adds.
    pub key: String,
    /// Its value.
    pub value: AnyValue,
    /// Whether the expected attribute was present in the last record this
    /// stage saw.
    pub observed: bool,
}

impl Processor2 {
    /// Record whether the expected attribute is present, then add this
    /// stage's own attribute.
    pub fn emit(&mut self, record: &mut LogRecord, _instrumentation: &InstrumentationScope)
        ensures
            final(self).expected_key == old(self).expected_key,
            final(self).expected_value == old(self).expected_value,
            final(self).key == old(self).key,
            final(self).value == old(self).value,
            final(self).observed == record_has(
                old(record)@,
                old(self).expected_key@,
                old(self).expected_value@,
            ),
            final(record)@ == (LogRecordSpec {
                attributes: old(record)@.attributes.push((old(self).key@, old(self).value@)),
                ..old(record)@
            }),
    {
        self.observed = record.attributes_contains(self.expected_key.as_str(), &self.expected_value);
        let key = self.key.clone();
        let value = self.value.clone();
        record.add_attribute(key, value);
    }
}

/// The processors a chain can hold: the pass-through and batching
/// processors around an exporter, and the two pipeline stages.
#[derive(Debug)]
pub enum LogProcessors<E: LogExporter> {
    /// A pass-through processor.
    Simple(SimpleLogProcessor<E>),
    /// A batching processor.
    Batch(BatchLogProcessor<E>),
    /// An enrichment stage.
    Processor1(Processor1),
    /// An inspection stage.
    Processor2(Processor2),
}

impl<E: LogExporter> LogProcessors<E> {
    /// The processor's own invariant.
    pub open spec fn wf(self) -> bool {
        match self {
            LogProcessors::Simple(p) => p.wf(),
            LogProcessors::Batch(p) => p.wf(),
            LogProcessors::Processor1(_) => true,
            LogProcessors::Processor2(_) => true,
        }
    }

    /// The record this processor hands to the stage after it: the
    /// exporting processors pass it through unchanged, the pipeline
    /// stages each add their attribute.
    pub open spec fn record_after(self, rec: LogRecordSpec) -> LogRecordSpec {
        match self {
            LogProcessors::Simple(_) => rec,
            LogProcessors::Batch(_) => rec,
            LogProcessors::Processor1(p) => LogRecordSpec {
                attributes: rec.attributes.push((p.key@, p.value@)),
                ..rec
            },
            LogProcessors::Processor2(p) => LogRecordSpec {
                attributes: rec.attributes.push((p.key@, p.value@)),
                ..rec
            },
        }
    }

    /// How one `emit` changes a processor, given the record value it saw.
    pub open spec fn emit_effect(
        pre: LogProcessors<E>,
        post: LogProcessors<E>,
        rec: LogRecordSpec,
        scope: ScopeSpec,
    ) -> bool {
        match pre {
            LogProcessors::Simple(s0) => {
                &&& post is Simple
                &&& {
                    let s1 = post->Simple_0;
                    &&& s1.is_shutdown == s0.is_shutdown
                    &&& (s0.is_shutdown ==> s1 == s0)
                    &&& (!s0.is_shutdown ==> s1.exporter.received() == s0.exporter.received()
                        + seq![LogDataSpec { record: rec, instrumentation: scope }])
                    &&& (!s0.is_shutdown ==> s1.exporter.current_resource()
                        == s0.exporter.current_resource())
                }
            },
            LogProcessors::Batch(b0) => {
                &&& post is Batch
                &&& {
                    let b1 = post->Batch_0;
                    &&& b1.exporter == b0.exporter
                    &&& b1.buffer@ == b0.buffer@
                    &&& b1.config == b0.config
                    &&& b1.terminated == b0.terminated
                    &&& ((b0.terminated || b0.queue@.len() == b0.config.max_queue_size)
                        ==> b1.queue@ == b0.queue@ && b1.sink.entries@.len() == b0.sink.entries@.len()
                        + 1)
                    &&& ((!b0.terminated && b0.queue@.len() < b0.config.max_queue_size) ==> (
                    b1.queue@.len() == b0.queue@.len() + 1 && queued_entries(b1.queue@)
                        == queued_entries(b0.queue@).push(
                        LogDataSpec { record: rec, instrumentation: scope },
                    )))
                }
            },
            LogProcessors::Processor1(_) => post == pre,
            LogProcessors::Processor2(p0) => {
                &&& post is Processor2
                &&& post->Processor2_0 == (Processor2 {
                    observed: record_has(rec, p0.expected_key@, p0.expected_value@),
                    ..p0
                })
            },
        }
    }

    /// Hand one record to this processor: exporting processors consume
    /// it, pipeline stages mutate it in place for the stages downstream.
    pub fn emit(&mut self, record: &mut LogRecord, instrumentation: &InstrumentationScope)
        requires
            old(self).wf(),
        ensures
            final(self).wf(),
            final(record)@ == old(self).record_after(old(record)@),
            LogProcessors::emit_effect(*old(self), *final(self), old(record)@, instrumentation@),
    {
        match self {
            LogProcessors::Simple(p) => p.emit(record, instrumentation),
            LogProcessors::Batch(p) => p.emit(record, instrumentation),
            LogProcessors::Processor1(p) => p.emit(record, instrumentation),
            LogProcessors::Processor2(p) => p.emit(record, instrumentation),
        }
    }

    /// How a flush changes a processor: the batching processor exports
    /// everything pending; the others have nothing buffered.
    pub open spec fn flush_effect(
        pre: LogProcessors<E>,
        post: LogProcessors<E>,
        r: LogResult,
    ) -> bool {
        match pre {
            LogProcessors::Simple(s0) => post == pre && r is Ok,
            LogProcessors::Batch(b0) => {
                &&& post is Batch
                &&& {
                    let b1 = post->Batch_0;
                    &&& b1.config == b0.config
                    &&& b1.terminated == b0.terminated
                    &&& (b0.terminated ==> b1 == b0 && r == Err::<(), LogError>(
                        LogError::AlreadyShutdown,
                    ))
                    &&& (!b0.terminated ==> (b1.exporter.received() == b0.exporter.received()
                        + b0.pending() && b1.queue@.len() == 0 && b1.buffer@.len() == 0))
                }
            },
            LogProcessors::Processor1(_) => post == pre && r is Ok,
            LogProcessors::Processor2(_) => post == pre && r is Ok,
        }
    }

    /// Flush whatever this processor buffers.
    pub fn force_flush(&mut self) -> (r: LogResult)
        requires
            old(self).wf(),
        ensures
            final(self).wf(),
            LogProcessors::flush_effect(*old(self), *final(self), r),
            r == flush_verdict(*old(self), *final(self)),
    {
        match self {
            LogProcessors::Simple(p) => p.force_flush(),
            LogProcessors::Batch(p) => p.force_flush(),
            LogProcessors::Processor1(_) => Ok(()),
            LogProcessors::Processor2(_) => Ok(()),
        }
    }

    /// How a shutdown changes a processor.
    pub open spec fn shutdown_effect(
        pre: LogProcessors<E>,
        post: LogProcessors<E>,
        r: LogResult,
    ) -> bool {
        match pre {
            LogProcessors::Simple(s0) => {
                &&& post is Simple
                &&& {
                    let s1 = post->Simple_0;
                    &&& s1.is_shutdown
                    &&& s1.exporter.is_shut_down()
                    &&& s1.exporter.received() == s0.exporter.received()
                    &&& r is Ok
                }
            },
            LogProcessors::Batch(b0) => {
                &&& post is Batch
                &&& {
                    let b1 = post->Batch_0;
                    &&& b1.terminated
                    &&& (b0.terminated ==> b1 == b0 && r == Err::<(), LogError>(
                        LogError::AlreadyShutdown,
                    ))
                    &&& (!b0.terminated ==> (b1.exporter.received() == b0.exporter.received()
                        + b0.pending() && b1.exporter.is_shut_down()))
                }
            },
            LogProcessors::Processor1(_) => post == pre && r is Ok,
            LogProcessors::Processor2(_) => post == pre && r is Ok,
        }
    }

    /// Shut this processor down, releasing what it owns.
    pub fn shutdown(&mut self) -> (r: LogResult)
        requires
            old(self).wf(),
        ensures
            final(self).wf(),
            LogProcessors::shutdown_effect(*old(self), *final(self), r),
            r == flush_verdict(*old(self), *final(self)),
    {
        match self {
            LogProcessors::Simple(p) => p.shutdown(),
            LogProcessors::Batch(p) => p.shutdown(),
            LogProcessors::Processor1(_) => Ok(()),
            LogProcessors::Processor2(_) => Ok(()),
        }
    }

    /// How a resource propagation changes a processor.
    pub open spec fn set_resource_effect(
        pre: LogProcessors<E>,
        post: LogProcessors<E>,
        resource: crate::record::ResourceSpec,
    ) -> bool {
        match pre {
            LogProcessors::Simple(s0) => {
                &&& post is Simple
                &&& {
                    let s1 = post->Simple_0;
                    &&& s1.is_shutdown == s0.is_shutdown
                    &&& s1.exporter.current_resource() == Some(resource)
                    &&& s1.exporter.received() == s0.exporter.received()
                }
            },
            LogProcessors::Batch(b0) => {
                &&& post is Batch
                &&& {
                    let b1 = post->Batch_0;
                    &&& b1.exporter == b0.exporter
                    &&& b1.buffer@ == b0.buffer@
                    &&& b1.terminated == b0.terminated
                    &&& ((b0.terminated || b0.queue@.len() == b0.config.max_queue_size)
                        ==> b1.queue@ == b0.queue@)
                    &&& ((!b0.terminated && b0.queue@.len() < b0.config.max_queue_size) ==> (
                    queued_entries(b1.queue@) == queued_entries(b0.queue@) && last_resource(
                        b1.queue@,
                        b0.exporter.current_resource(),
                    ) == Some(resource)))
                }
            },
            LogProcessors::Processor1(_) => post == pre,
            LogProcessors::Processor2(_) => post == pre,
        }
    }

    /// Hand this processor a resource snapshot; fire-and-forget.
    pub fn set_resource(&mut self, resource: &Resource)
        requires
            old(self).wf(),
        ensures
            final(self).wf(),
            LogProcessors::set_resource_effect(*old(self), *final(self), resource@),
    {
        match self {
            LogProcessors::Simple(p) => p.set_resource(resource),
            LogProcessors::Batch(p) => p.set_resource(resource),
            LogProcessors::Processor1(_) => (),
            LogProcessors::Processor2(_) => (),
        }
    }

    /// Whether this processor wants records of this severity at all.
    /// Every processor here accepts everything.
    pub fn event_enabled(&self, _level: Severity, _target: &str, _name: &str) -> (r: bool)
        ensures
            r == true,
    {
        match self {
            LogProcessors::Simple(_) => true,
            LogProcessors::Batch(_) => true,
            LogProcessors::Processor1(_) => true,
            LogProcessors::Processor2(_) => true,
        }
    }
}

/// The result a processor's flush or shutdown returns, determined by the
/// processor before the call and after it: only a batching processor can
/// fail, either because its worker had already terminated, or with its
/// exporter's verdict on the final batch; an empty final batch never
/// reaches the exporter and cannot fail.
pub open spec fn flush_verdict<E: LogExporter>(
    pre: LogProcessors<E>,
    post: LogProcessors<E>,
) -> LogResult {
    match pre {
        LogProcessors::Batch(b0) => if b0.terminated {
            Err(LogError::AlreadyShutdown)
        } else if buffer_after(
            log_batch_view(b0.buffer@),
            queued_entries(b0.queue@),
            b0.threshold(),
        ).len() == 0 {
            Ok(())
        } else {
            match post {
                LogProcessors::Batch(b1) => b1.exporter.last_result(),
                _ => Ok(()),
            }
        },
        _ => Ok(()),
    }
}

/// The record that leaves a chain of processors, given the record that
/// entered it: each stage's mutation, applied in registration order.
pub open spec fn chain_record_after<E: LogExporter>(
    ps: Seq<LogProcessors<E>>,
    rec: LogRecordSpec,
) -> LogRecordSpec
    decreases ps.len(),
{
    if ps.len() == 0 {
        rec
    } else {
        ps.last().record_after(chain_record_after(ps.drop_last(), rec))
    }
}

/// Holds processors in registration order and fans each record through
/// all of them sequentially; order is significant and preserved.
#[derive(Debug)]
pub struct LogManager<E: LogExporter> {
    /// The processors, in registration order.
    pub processors: Vec<LogProcessors<E>>,
}

impl<E: LogExporter> LogManager<E> {
    /// Every processor's invariant holds.
    pub open spec fn wf(self) -> bool {
        forall|k: int| 0 <= k < self.processors@.len() ==> (#[trigger] self.processors@[k]).wf()
    }

    /// A manager with no processors registered.
    pub fn new() -> (r: LogManager<E>)
        ensures
            r.wf(),
            r.processors@.len() == 0,
    {
        LogManager { processors: Vec::new() }
    }

    /// Register one more processor, after all the others.
    pub fn add_processor(&mut self, processor: LogProcessors<E>)
        requires
            old(self).wf(),
            processor.wf(),
        ensures
            final(self).wf(),
            final(self).processors@ == old(self).processors@.push(processor),
    {
        self.processors.push(processor);
    }

    /// Fan one record through every processor in registration order,
    /// passing the same mutable record: a stage's mutations are observed
    /// by every stage after it. The record that leaves the chain is
    /// [`chain_record_after`] of the record that entered; each processor
    /// changes as its own `emit` says, applied to the record as it stood
    /// when that processor saw it.
    pub fn emit_all(&mut self, record: &mut LogRecord, instrumentation: &InstrumentationScope)
        requires
            old(self).wf(),
        ensures
            final(self).wf(),
            final(self).processors@.len() == old(self).processors@.len(),
            final(record)@ == chain_record_after(old(self).processors@, old(record)@),
            forall|k: int|
                0 <= k < old(self).processors@.len() ==> LogProcessors::emit_effect(
                    old(self).processors@[k],
                    #[trigger] final(self).processors@[k],
                    chain_record_after(old(self).processors@.take(k), old(record)@),
                    instrumentation@,
                ),
    {
        let n = self.processors.len();
        let mut i: usize = 0;
        proof {
            assert(old(self).processors@.take(0) =~= Seq::<LogProcessors<E>>::empty());
        }
        while i < n
            invariant
                n == self.processors@.len(),
                n == old(self).processors@.len(),
                i <= n,
                forall|k: int|
                    i <= k < n ==> #[trigger] self.processors@[k] == old(self).processors@[k],
                forall|k: int| 0 <= k < n ==> (#[trigger] self.processors@[k]).wf(),
                record@ == chain_record_after(old(self).processors@.take(i as int), old(record)@),
                forall|k: int|
                    0 <= k < i ==> LogProcessors::emit_effect(
                        old(self).processors@[k],
                        #[trigger] self.processors@[k],
                        chain_record_after(old(self).processors@.take(k), old(record)@),
                        instrumentation@,
                    ),
            decreases n - i,
        {
            self.processors[i].emit(record, instrumentation);
            proof {
                let taken = old(self).processors@.take(i as int);
                let taken1 = old(self).processors@.take(i as int + 1);
                assert(taken1.drop_last() =~= taken);
                assert(taken1.last() == old(self).processors@[i as int]);
                assert(record@ == chain_record_after(taken1, old(record)@));
            }
            i = i + 1;
        }
        proof {
            assert(old(self).processors@.take(n as int) =~= old(self).processors@);
        }
    }

    /// Flush every processor in order, even after one fails, since each
    /// owns independent resources; return the first failure, or success
    /// when all succeeded.
    pub fn force_flush_all(&mut self) -> (r: LogResult)
        requires
            old(self).wf(),
        ensures
            final(self).wf(),
            final(self).processors@.len() == old(self).processors@.len(),
            forall|k: int|
                0 <= k < old(self).processors@.len() ==> LogProcessors::flush_effect(
                    old(self).processors@[k],
                    #[trigger] final(self).processors@[k],
                    flush_verdict(old(self).processors@[k], final(self).processors@[k]),
                ),
            r is Ok ==> (forall|k: int|
                0 <= k < old(self).processors@.len() ==> flush_verdict(
                    old(self).processors@[k],
                    #[trigger] final(self).processors@[k],
                ) is Ok),
            r is Err ==> exists|k: int|
                0 <= k < old(self).processors@.len() && r == flush_verdict(
                    old(self).processors@[k],
                    #[trigger] final(self).processors@[k],
                ) && (forall|j: int|
                    0 <= j < k ==> flush_verdict(
                        old(self).processors@[j],
                        #[trigger] final(self).processors@[j],
                    ) is Ok),
    {
        let n = self.processors.len();
        let mut i: usize = 0;
        let mut out: LogResult = Ok(());
        while i < n
            invariant
                n == self.processors@.len(),
                n == old(self).processors@.len(),
                i <= n,
                forall|k: int|
                    i <= k < n ==> #[trigger] self.processors@[k] == old(self).processors@[k],
                forall|k: int| 0 <= k < n ==> (#[trigger] self.processors@[k]).wf(),
                forall|k: int|
                    0 <= k < i ==> LogProcessors::flush_effect(
                        old(self).processors@[k],
                        #[trigger] self.processors@[k],
                        flush_verdict(old(self).processors@[k], self.processors@[k]),
                    ),
                out is Ok ==> (forall|k: int|
                    0 <= k < i ==> flush_verdict(
                        old(self).processors@[k],
                        #[trigger] self.processors@[k],
                    ) is Ok),
                out is Err ==> exists|k: int|
                    0 <= k < i && out == flush_verdict(
                        old(self).processors@[k],
                        #[trigger] self.processors@[k],
                    ) && (forall|j: int|
                        0 <= j < k ==> flush_verdict(
                            old(self).processors@[j],
                            #[trigger] self.processors@[j],
                        ) is Ok),
            decreases n - i,
        {
            let ghost entry_self = *self;
            let ghost entry_out = out;
            let rk = self.processors[i].force_flush();
            proof {
                assert(rk == flush_verdict(
                    old(self).processors@[i as int],
                    self.processors@[i as int],
                ));
                assert(forall|k: int|
                    0 <= k < i ==> #[trigger] self.processors@[k] == entry_self.processors@[k]);
            }
            if out.is_ok() && rk.is_err() {
                out = rk;
                proof {
                    assert(forall|j: int|
                        0 <= j < i ==> flush_verdict(
                            old(self).processors@[j],
                            #[trigger] self.processors@[j],
                        ) is Ok);
                }
            } else {
                proof {
                    if out is Err {
                        let k0 = choose|k: int|
                            0 <= k < i && entry_out == flush_verdict(
                                old(self).processors@[k],
                                #[trigger] entry_self.processors@[k],
                            ) && (forall|j: int|
                                0 <= j < k ==> flush_verdict(
                                    old(self).processors@[j],
                                    #[trigger] entry_self.processors@[j],
                                ) is Ok);
                        assert(out == flush_verdict(
                            old(self).processors@[k0],
                            self.processors@[k0],
                        ));
                        assert(forall|j: int|
                            0 <= j < k0 ==> flush_verdict(
                                old(self).processors@[j],
                                #[trigger] self.processors@[j],
                            ) is Ok);
                    }
                }
            }
            i = i + 1;
        }
        out
    }

    /// Shut every processor down in order, even after one fails; return
    /// the first failure, or success when all succeeded.
    pub fn shutdown_all(&mut self) -> (r: LogResult)
        requires
            old(self).wf(),
        ensures
            final(self).wf(),
            final(self).processors@.len() == old(self).processors@.len(),
            forall|k: int|
                0 <= k < old(self).processors@.len() ==> LogProcessors::shutdown_effect(
                    old(self).processors@[k],
                    #[trigger] final(self).processors@[k],
                    flush_verdict(old(self).processors@[k], final(self).processors@[k]),
                ),
            r is Ok ==> (forall|k: int|
                0 <= k < old(self).processors@.len() ==> flush_verdict(
                    old(self).processors@[k],
                    #[trigger] final(self).processors@[k],
                ) is Ok),
            r is Err ==> exists|k: int|
                0 <= k < old(self).processors@.len() && r == flush_verdict(
                    old(self).processors@[k],
                    #[trigger] final(self).processors@[k],
                ) && (forall|j: int|
                    0 <= j < k ==> flush_verdict(
                        old(self).processors@[j],
                        #[trigger] final(self).processors@[j],
                    ) is Ok),
    {
        let n = self.processors.len();
        let mut i: usize = 0;
        let mut out: LogResult = Ok(());
        while i < n
            invariant
                n == self.processors@.len(),
                n == old(self).processors@.len(),
                i <= n,
                forall|k: int|
                    i <= k < n ==> #[trigger] self.processors@[k] == old(self).processors@[k],
                forall|k: int| 0 <= k < n ==> (#[trigger] self.processors@[k]).wf(),
                forall|k: int|
                    0 <= k < i ==> LogProcessors::shutdown_effect(
                        old(self).processors@[k],
                        #[trigger] self.processors@[k],
                        flush_verdict(old(self).processors@[k], self.processors@[k]),
                    ),
                out is Ok ==> (forall|k: int|
                    0 <= k < i ==> flush_verdict(
                        old(self).processors@[k],
                        #[trigger] self.processors@[k],
                    ) is Ok),
                out is Err ==> exists|k: int|
                    0 <= k < i && out == flush_verdict(
                        old(self).processors@[k],
                        #[trigger] self.processors@[k],
                    ) && (forall|j: int|
                        0 <= j < k ==> flush_verdict(
                            old(self).processors@[j],
                            #[trigger] self.processors@[j],
                        ) is Ok),
            decreases n - i,
        {
            let ghost entry_self = *self;
            let ghost entry_out = out;
            let rk = self.processors[i].shutdown();
            proof {
                assert(rk == flush_verdict(
                    old(self).processors@[i as int],
                    self.processors@[i as int],
                ));
                assert(forall|k: int|
                    0 <= k < i ==> #[trigger] self.processors@[k] == entry_self.processors@[k]);
            }
            if out.is_ok() && rk.is_err() {
                out = rk;
                proof {
                    assert(forall|j: int|
                        0 <= j < i ==> flush_verdict(
                            old(self).processors@[j],
                            #[trigger] self.processors@[j],
                        ) is Ok);
                }
            } else {
                proof {
                    if out is Err {
                        let k0 = choose|k: int|
                            0 <= k < i && entry_out == flush_verdict(
                                old(self).processors@[k],
                                #[trigger] entry_self.processors@[k],
                            ) && (forall|j: int|
                                0 <= j < k ==> flush_verdict(
                                    old(self).processors@[j],
                                    #[trigger] entry_self.processors@[j],
                                ) is Ok);
                        assert(out == flush_verdict(
                            old(self).processors@[k0],
                            self.processors@[k0],
                        ));
                        assert(forall|j: int|
                            0 <= j < k0 ==> flush_verdict(
                                old(self).processors@[j],
                                #[trigger] self.processors@[j],
                            ) is Ok);
                    }
                }
            }
            i = i + 1;
        }
        out
    }

    /// Hand every processor a snapshot of the resource, in order.
    pub fn set_resource_all(&mut self, resource: &Resource)
        requires
            old(self).wf(),
        ensures
            final(self).wf(),
            final(self).processors@.len() == old(self).processors@.len(),
            forall|k: int|
                0 <= k < old(self).processors@.len() ==> LogProcessors::set_resource_effect(
                    old(self).processors@[k],
                    #[trigger] final(self).processors@[k],
                    resource@,
                ),
    {
        let n = self.processors.len();
        let mut i: usize = 0;
        while i < n
            invariant
                n == self.processors@.len(),
                n == old(self).processors@.len(),
                i <= n,
                forall|k: int|
                    i <= k < n ==> #[trigger] self.processors@[k] == old(self).processors@[k],
                forall|k: int| 0 <= k < n ==> (#[trigger] self.processors@[k]).wf(),
                forall|k: int|
                    0 <= k < i ==> LogProcessors::set_resource_effect(
                        old(self).processors@[k],
                        #[trigger] self.processors@[k],
                        resource@,
                    ),
            decreases n - i,
        {
            self.processors[i].set_resource(resource);
            i = i + 1;
        }
    }

    /// Whether any registered processor wants records of this severity:
    /// true exactly when at least one processor is registered, since every
    /// processor here accepts everything.
    pub fn event_enabled_all(&self, level: Severity, target: &str, name: &str) -> (r: bool)
        ensures
            r == (self.processors@.len() > 0),
    {
        let n = self.processors.len();
        let mut i: usize = 0;
        while i < n
            invariant
                n == self.processors@.len(),
                i <= n,
                i == 0,
            decreases n - i,
        {
            if self.processors[i].event_enabled(level, target, name) {
                return true;
            }
            i = i + 1;
        }
        false
    }
}

/// Chain ordering: when an enrichment stage is registered before an
/// inspection stage expecting exactly the attribute the enricher adds,
/// one pass of a record through the chain leaves the inspector having
/// observed the enricher's mutation, and the record that leaves the
/// chain carries both stages' attributes for anything wired downstream.
///
/// The premises are what [`LogManager::emit_all`] ensures of a chain of
/// those two stages.
pub proof fn lemma_chain_ordering<E: LogExporter>(
    ps0: Seq<LogProcessors<E>>,
    ps1: Seq<LogProcessors<E>>,
    rec: LogRecordSpec,
    scope: ScopeSpec,
)
    requires
        ps0.len() == 2,
        ps1.len() == 2,
        ps0[0] is Processor1,
        ps0[1] is Processor2,
        ps0[1]->Processor2_0.expected_key@ == ps0[0]->Processor1_0.key@,
        ps0[1]->Processor2_0.expected_value@ == ps0[0]->Processor1_0.value@,
        forall|k: int|
            0 <= k < 2 ==> LogProcessors::emit_effect(
                ps0[k],
                #[trigger] ps1[k],
                chain_record_after(ps0.take(k), rec),
                scope,
            ),
    ensures
        ps1[1]->Processor2_0.observed,
        record_has(
            chain_record_after(ps0, rec),
            ps0[0]->Processor1_0.key@,
            ps0[0]->Processor1_0.value@,
        ),
        record_has(
            chain_record_after(ps0, rec),
            ps0[1]->Processor2_0.key@,
            ps0[1]->Processor2_0.value@,
        ),
{
    let k1 = ps0[0]->Processor1_0.key@;
    let v1 = ps0[0]->Processor1_0.value@;
    let k2 = ps0[1]->Processor2_0.key@;
    let v2 = ps0[1]->Processor2_0.value@;

    assert(ps0.take(0) =~= Seq::<LogProcessors<E>>::empty());
    assert(chain_record_after(Seq::<LogProcessors<E>>::empty(), rec) == rec);
    assert(ps0.take(1).drop_last() =~= Seq::<LogProcessors<E>>::empty());
    assert(ps0.take(1).last() == ps0[0]);
    let rec1 = chain_record_after(ps0.take(1), rec);
    assert(rec1 == ps0[0].record_after(rec));
    assert(rec1.attributes == rec.attributes.push((k1, v1)));

    // The inspector saw the enricher's attribute.
    assert(LogProcessors::emit_effect(ps0[1], ps1[1], rec1, scope));
    assert(rec1.attributes[rec.attributes.len() as int] == (k1, v1));
    assert(record_has(rec1, k1, v1));
    assert(ps1[1]->Processor2_0.observed == record_has(
        rec1,
        ps0[1]->Processor2_0.expected_key@,
        ps0[1]->Processor2_0.expected_value@,
    ));
    assert(ps1[1]->Processor2_0.observed);

    // The record leaving the chain carries both attributes.
    assert(ps0.take(2) =~= ps0);
    assert(ps0.drop_last() =~= ps0.take(1));
    let rec2 = chain_record_after(ps0, rec);
    assert(rec2 == ps0[1].record_after(rec1));
    assert(rec2.attributes == rec1.attributes.push((k2, v2)));
    assert(rec2.attributes[rec.attributes.len() as int] == (k1, v1));
    assert(record_has(rec2, k1, v1));
    assert(rec2.attributes[rec.attributes.len() + 1 as int] == (k2, v2));
    assert(record_has(rec2, k2, v2));
}

} // verus!
