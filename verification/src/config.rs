//! Validated configuration knobs of the batching processor.
//!
//! All durations are in milliseconds.

use vstd::prelude::*;

verus! {

/// Default maximum queue size.
pub const OTEL_BLRP_MAX_QUEUE_SIZE_DEFAULT: usize = 2048;

/// Default delay interval between two consecutive exports, in milliseconds.
pub const OTEL_BLRP_SCHEDULE_DELAY_DEFAULT: u64 = 1000;

/// Default maximum batch size.
pub const OTEL_BLRP_MAX_EXPORT_BATCH_SIZE_DEFAULT: usize = 512;

/// Default maximum allowed time to export data, in milliseconds.
pub const OTEL_BLRP_EXPORT_TIMEOUT_DEFAULT: u64 = 30000;

/// Name of the environment variable overriding the maximum queue size.
pub const OTEL_BLRP_MAX_QUEUE_SIZE: &'static str = "OTEL_BLRP_MAX_QUEUE_SIZE";

/// Name of the environment variable overriding the delay interval.
pub const OTEL_BLRP_SCHEDULE_DELAY: &'static str = "OTEL_BLRP_SCHEDULE_DELAY";

/// Name of the environment variable overriding the maximum batch size.
pub const OTEL_BLRP_MAX_EXPORT_BATCH_SIZE: &'static str = "OTEL_BLRP_MAX_EXPORT_BATCH_SIZE";

/// Name of the environment variable overriding the export deadline.
pub const OTEL_BLRP_EXPORT_TIMEOUT: &'static str = "OTEL_BLRP_EXPORT_TIMEOUT";

/// Batch log processor configuration. Use [`BatchConfigBuilder`] to
/// construct one; building guarantees the invariant
/// `max_export_batch_size <= max_queue_size`.
#[derive(Debug, Clone, Copy, PartialEq, Eq, Structural)]
pub struct BatchConfig {
    /// The maximum number of records buffered for delayed processing. When
    /// the queue is full, further records are dropped.
    pub max_queue_size: usize,

    /// The delay interval in milliseconds between two consecutive
    /// processings of batches.
    pub scheduled_delay: u64,

    /// The maximum number of records exported in a single batch; never
    /// larger than `max_queue_size`.
    pub max_export_batch_size: usize,

    /// The maximum duration in milliseconds allowed for one export call.
    pub max_export_timeout: u64,
}

impl BatchConfig {
    /// The invariant every constructed configuration satisfies.
    pub open spec fn wf(self) -> bool {
        self.max_export_batch_size <= self.max_queue_size
    }

    /// The configuration built from an unmodified builder.
    pub open spec fn spec_default() -> BatchConfig {
        BatchConfigBuilder::spec_default().spec_build()
    }
}

impl Default for BatchConfig {
    /// The configuration built from an unmodified builder.
    fn default() -> (r: BatchConfig)
        ensures
            r == BatchConfigBuilder::spec_default().spec_build(),
            r.wf(),
    {
        let b = BatchConfigBuilder::default();
        b.build()
    }
}

/// A builder for [`BatchConfig`] values. The builder accepts any
/// combination of knobs; `build` clamps the batch size so that the
/// configuration invariant holds.
#[derive(Debug, Clone, Copy, PartialEq, Eq, Structural)]
pub struct BatchConfigBuilder {
    /// Requested maximum queue size.
    pub max_queue_size: usize,
    /// Requested delay interval, in milliseconds.
    pub scheduled_delay: u64,
    /// Requested maximum batch size; clamped at build time.
    pub max_export_batch_size: usize,
    /// Requested export deadline, in milliseconds.
    pub max_export_timeout: u64,
}

impl BatchConfigBuilder {
    /// The builder holding the default value of every knob.
    pub open spec fn spec_default() -> BatchConfigBuilder {
        BatchConfigBuilder {
            max_queue_size: 2048,
            scheduled_delay: 1000,
            max_export_batch_size: 512,
            max_export_timeout: 30000,
        }
    }

    /// The configuration this builder produces: every knob as requested,
    /// with the batch size clamped to the queue size.
    pub open spec fn spec_build(self) -> BatchConfig {
        BatchConfig {
            max_queue_size: self.max_queue_size,
            scheduled_delay: self.scheduled_delay,
            max_export_batch_size: if self.max_export_batch_size <= self.max_queue_size {
                self.max_export_batch_size
            } else {
                self.max_queue_size
            },
            max_export_timeout: self.max_export_timeout,
        }
    }

    /// Set the maximum queue size: the bound on records buffered for
    /// delayed processing. When the queue is full, further records are
    /// dropped. The default is 2048.
    pub fn with_max_queue_size(self, max_queue_size: usize) -> (r: Self)
        ensures
            r == (BatchConfigBuilder { max_queue_size, ..self }),
    {
        BatchConfigBuilder { max_queue_size, ..self }
    }

    /// Set the delay interval in milliseconds between two consecutive
    /// processings of batches. The default is 1000 milliseconds.
    pub fn with_scheduled_delay(self, scheduled_delay: u64) -> (r: Self)
        ensures
            r == (BatchConfigBuilder { scheduled_delay, ..self }),
    {
        BatchConfigBuilder { scheduled_delay, ..self }
    }

    /// Set the maximum duration in milliseconds allowed for one export
    /// call. The default is 30000 milliseconds.
    pub fn with_max_export_timeout(self, max_export_timeout: u64) -> (r: Self)
        ensures
            r == (BatchConfigBuilder { max_export_timeout, ..self }),
    {
        BatchConfigBuilder { max_export_timeout, ..self }
    }

    /// Set the maximum number of records processed in a single batch. If
    /// more than one batch worth of records is pending, they are processed
    /// batch after batch without delay. The default is 512; values above
    /// the queue size are clamped at build time.
    pub fn with_max_export_batch_size(self, max_export_batch_size: usize) -> (r: Self)
        ensures
            r == (BatchConfigBuilder { max_export_batch_size, ..self }),
    {
        BatchConfigBuilder { max_export_batch_size, ..self }
    }

    /// Apply overrides read from the environment: a `Some` replaces the
    /// builder's current value of that knob, a `None` (unset or
    /// unparseable variable) keeps it. Reading and parsing the variables
    /// is the host's job; an invalid value never causes a failure.
    pub fn init_from_env_vars(
        self,
        max_queue_size: Option<usize>,
        scheduled_delay: Option<u64>,
        max_export_batch_size: Option<usize>,
        max_export_timeout: Option<u64>,
    ) -> (r: Self)
        ensures
            r.max_queue_size == if max_queue_size is Some {
                max_queue_size->0
            } else {
                self.max_queue_size
            },
            r.scheduled_delay == if scheduled_delay is Some {
                scheduled_delay->0
            } else {
                self.scheduled_delay
            },
            r.max_export_batch_size == if max_export_batch_size is Some {
                max_export_batch_size->0
            } else {
                self.max_export_batch_size
            },
            r.max_export_timeout == if max_export_timeout is Some {
                max_export_timeout->0
            } else {
                self.max_export_timeout
            },
    {
        let mut b = self;
        if let Some(v) = max_queue_size {
            b.max_queue_size = v;
        }
        if let Some(v) = scheduled_delay {
            b.scheduled_delay = v;
        }
        if let Some(v) = max_export_batch_size {
            b.max_export_batch_size = v;
        }
        if let Some(v) = max_export_timeout {
            b.max_export_timeout = v;
        }
        b
    }

    /// Build a `BatchConfig`. The batch size is silently clamped to the
    /// queue size, so `max_export_batch_size <= max_queue_size` holds of
    /// every built configuration; every other knob is taken as requested.
    pub fn build(self) -> (r: BatchConfig)
        ensures
            r == self.spec_build(),
            r.wf(),
            r.max_queue_size == self.max_queue_size,
            r.scheduled_delay == self.scheduled_delay,
            r.max_export_timeout == self.max_export_timeout,
            r.max_export_batch_size == if self.max_export_batch_size <= self.max_queue_size {
                self.max_export_batch_size
            } else {
                self.max_queue_size
            },
    {
        let max_export_batch_size = if self.max_export_batch_size <= self.max_queue_size {
            self.max_export_batch_size
        } else {
            self.max_queue_size
        };
        BatchConfig {
            max_queue_size: self.max_queue_size,
            scheduled_delay: self.scheduled_delay,
            max_export_batch_size,
            max_export_timeout: self.max_export_timeout,
        }
    }
}

impl Default for BatchConfigBuilder {
    /// Create a builder initialized with the default batch config values:
    /// queue size 2048, delay 1000 ms, batch size 512, export timeout
    /// 30000 ms. Environment overrides are applied separately through
    /// [`BatchConfigBuilder::init_from_env_vars`].
    fn default() -> (r: BatchConfigBuilder)
        ensures
            r == BatchConfigBuilder::spec_default(),
    {
        BatchConfigBuilder {
            max_queue_size: OTEL_BLRP_MAX_QUEUE_SIZE_DEFAULT,
            scheduled_delay: OTEL_BLRP_SCHEDULE_DELAY_DEFAULT,
            max_export_batch_size: OTEL_BLRP_MAX_EXPORT_BATCH_SIZE_DEFAULT,
            max_export_timeout: OTEL_BLRP_EXPORT_TIMEOUT_DEFAULT,
        }
    }
}

} // verus!
