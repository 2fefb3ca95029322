//! How much the library traces, and which events it emits.

use crate::job::Job;
use vstd::prelude::*;

verus! {

/// How much the library traces.
#[derive(Clone, Copy, Debug, Eq, PartialEq, Ord, PartialOrd, Structural)]
pub enum TracingVerbosity {
    /// Nothing but errors.
    Off,
    /// The core lifecycle events.
    Lifecycle,
    /// Fetch and de-duplication details too.
    Verbose,
}

impl TracingVerbosity {
    /// The place of this verbosity among all, from the quietest on.
    pub open spec fn rank(self) -> int {
        match self {
            TracingVerbosity::Off => 0,
            TracingVerbosity::Lifecycle => 1,
            TracingVerbosity::Verbose => 2,
        }
    }
}

/// Tracing configuration.
#[derive(Clone, Copy, Debug, Eq, PartialEq, Structural)]
pub struct TracingConfig {
    /// How much the library traces.
    pub verbosity: TracingVerbosity,
}

impl TracingConfig {
    /// Overrides the verbosity.
    #[must_use]
    pub fn verbosity(self, verbosity: TracingVerbosity) -> (r: Self)
        ensures
            r == (TracingConfig { verbosity }),
    {
        let mut config = self;
        config.verbosity = verbosity;
        config
    }
}

impl Default for TracingConfig {
    fn default() -> (r: Self)
        ensures
            r == (TracingConfig { verbosity: TracingVerbosity::Lifecycle }),
    {
        TracingConfig { verbosity: TracingVerbosity::Lifecycle }
    }
}

/// The place where the configuration of a process is kept. A program holds one behind a lock.
#[derive(Debug)]
pub struct TracingConfigCell {
    current: TracingConfig,
}

impl View for TracingConfigCell {
    type V = TracingConfig;

    closed spec fn view(&self) -> TracingConfig {
        self.current
    }
}

/// Creates the cell of a process, which starts with the default configuration.
pub fn tracing_config_cell() -> (r: TracingConfigCell)
    ensures
        r@ == (TracingConfig { verbosity: TracingVerbosity::Lifecycle }),
{
    TracingConfigCell { current: TracingConfig::default() }
}

/// Replaces the configuration.
pub fn set_tracing_config(cell: &mut TracingConfigCell, config: TracingConfig)
    ensures
        final(cell)@ == config,
{
    cell.current = config;
}

/// Returns the configuration that was set last.
#[must_use]
pub fn tracing_config(cell: &TracingConfigCell) -> (r: TracingConfig)
    ensures
        r == cell@,
{
    cell.current
}

/// Whether `config` lets lifecycle events through.
pub open spec fn emits_lifecycle(config: TracingConfig) -> bool {
    config.verbosity.rank() >= TracingVerbosity::Lifecycle.rank()
}

/// Whether `config` lets verbose events through.
pub open spec fn emits_verbose(config: TracingConfig) -> bool {
    config.verbosity.rank() >= TracingVerbosity::Verbose.rank()
}

/// Whether lifecycle events are emitted.
#[must_use]
pub fn emit_lifecycle_traces(config: &TracingConfig) -> (r: bool)
    ensures
        r == emits_lifecycle(*config),
{
    match config.verbosity {
        TracingVerbosity::Off => false,
        TracingVerbosity::Lifecycle => true,
        TracingVerbosity::Verbose => true,
    }
}

/// Whether verbose events are emitted.
#[must_use]
pub fn emit_verbose_traces(config: &TracingConfig) -> (r: bool)
    ensures
        r == emits_verbose(*config),
{
    match config.verbosity {
        TracingVerbosity::Off => false,
        TracingVerbosity::Lifecycle => false,
        TracingVerbosity::Verbose => true,
    }
}

/// Whether the work on a job is wrapped in a span.
#[must_use]
pub fn opens_span(config: &TracingConfig) -> (r: bool)
    ensures
        r == emits_lifecycle(*config),
{
    emit_lifecycle_traces(config)
}

/// What happened to a job.
#[derive(Clone, Copy, Debug, PartialEq, Eq, Structural)]
pub enum JobEvent {
    /// It was pushed to its queue.
    Enqueued,
    /// It was dropped as a duplicate.
    Deduplicated,
    /// It was scheduled to be retried at a Unix time.
    RetryScheduled(i64),
    /// It was scheduled to run at a Unix time.
    Scheduled(i64),
}

/// The level of a trace event.
#[derive(Clone, Copy, Debug, PartialEq, Eq, Structural)]
pub enum TraceLevel {
    /// Debug.
    Debug,
    /// Info.
    Info,
}

/// A trace event about a job.
#[derive(Debug)]
pub struct TraceEvent {
    /// Level.
    pub level: TraceLevel,
    /// Name of the event.
    pub name: &'static str,
    /// Field `status`.
    pub status: &'static str,
    /// Field `jid`.
    pub jid: String,
    /// Field `class`.
    pub class: String,
    /// Field `queue`.
    pub queue: String,
    /// Field `retry_count`.
    pub retry_count: usize,
    /// Field `worker_type`.
    pub worker_type: &'static str,
    /// Field `enqueue_at`.
    pub enqueue_at: Option<i64>,
}

impl JobEvent {
    /// Whether `config` lets this event through.
    pub open spec fn is_emitted(self, config: TracingConfig) -> bool {
        match self {
            JobEvent::Deduplicated => emits_verbose(config),
            _ => emits_lifecycle(config),
        }
    }

    /// The level on which this event is emitted.
    pub open spec fn level(self) -> TraceLevel {
        match self {
            JobEvent::Deduplicated => TraceLevel::Debug,
            _ => TraceLevel::Info,
        }
    }

    /// The name of this event.
    pub open spec fn name(self) -> Seq<char> {
        match self {
            JobEvent::Enqueued => "job.enqueued"@,
            JobEvent::Deduplicated => "job.deduplicated"@,
            JobEvent::RetryScheduled(_) => "job.retry_scheduled"@,
            JobEvent::Scheduled(_) => "job.scheduled"@,
        }
    }

    /// The status that this event reports.
    pub open spec fn status(self) -> Seq<char> {
        match self {
            JobEvent::Enqueued => "queued"@,
            JobEvent::Deduplicated => "duplicate"@,
            JobEvent::RetryScheduled(_) => "retry_scheduled"@,
            JobEvent::Scheduled(_) => "scheduled"@,
        }
    }

    /// The kind of work that this event is about.
    pub open spec fn worker_type(self) -> Seq<char> {
        match self {
            JobEvent::Enqueued | JobEvent::Deduplicated => "async"@,
            JobEvent::RetryScheduled(_) => "retry"@,
            JobEvent::Scheduled(_) => "scheduled"@,
        }
    }

    /// The time that this event reports.
    pub open spec fn enqueue_at(self) -> Option<i64> {
        match self {
            JobEvent::Enqueued | JobEvent::Deduplicated => None,
            JobEvent::RetryScheduled(at) => Some(at),
            JobEvent::Scheduled(at) => Some(at),
        }
    }

    /// Whether `trace` reports this event about `job`.
    pub open spec fn is_reported_by(self, job: Job, trace: TraceEvent) -> bool {
        &&& trace.level == self.level()
        &&& trace.name@ == self.name()
        &&& trace.status@ == self.status()
        &&& trace.jid == job.jid
        &&& trace.class == job.class
        &&& trace.queue == job.queue
        &&& trace.retry_count == (match job.retry_count {
            Some(count) => count,
            None => 0,
        })
        &&& trace.worker_type@ == self.worker_type()
        &&& trace.enqueue_at == self.enqueue_at()
    }

    /// Returns the trace event to emit about `job`, if any.
    pub fn trace(&self, job: &Job, config: &TracingConfig) -> (r: Option<TraceEvent>)
        ensures
            match r {
                Some(trace) => self.is_emitted(*config) && self.is_reported_by(*job, trace),
                None => !self.is_emitted(*config),
            },
    {
        let (emitted, level, name, status, worker_type, enqueue_at) = match *self {
            JobEvent::Enqueued => (
                emit_lifecycle_traces(config),
                TraceLevel::Info,
                "job.enqueued",
                "queued",
                "async",
                None,
            ),
            JobEvent::Deduplicated => (
                emit_verbose_traces(config),
                TraceLevel::Debug,
                "job.deduplicated",
                "duplicate",
                "async",
                None,
            ),
            JobEvent::RetryScheduled(at) => (
                emit_lifecycle_traces(config),
                TraceLevel::Info,
                "job.retry_scheduled",
                "retry_scheduled",
                "retry",
                Some(at),
            ),
            JobEvent::Scheduled(at) => (
                emit_lifecycle_traces(config),
                TraceLevel::Info,
                "job.scheduled",
                "scheduled",
                "scheduled",
                Some(at),
            ),
        };
        if emitted {
            Some(
                TraceEvent {
                    level,
                    name,
                    status,
                    jid: job.jid.clone(),
                    class: job.class.clone(),
                    queue: job.queue.clone(),
                    retry_count: job.retry_count.unwrap_or(0),
                    worker_type,
                    enqueue_at,
                },
            )
        } else {
            None
        }
    }
}

/// With tracing off, no event is emitted.
pub proof fn law_off_suppresses_every_event(event: JobEvent, config: TracingConfig)
    requires
        config.verbosity == TracingVerbosity::Off,
    ensures
        !event.is_emitted(config),
{
}

/// With tracing off, no span is opened.
pub proof fn law_off_opens_no_span(config: TracingConfig)
    requires
        config.verbosity == TracingVerbosity::Off,
    ensures
        !emits_lifecycle(config),
{
}

/// With verbose tracing, every event is emitted.
pub proof fn law_verbose_emits_every_event(event: JobEvent, config: TracingConfig)
    requires
        config.verbosity == TracingVerbosity::Verbose,
    ensures
        event.is_emitted(config),
{
}

/// With lifecycle tracing, exactly the de-duplication details are left out.
pub proof fn law_lifecycle_leaves_out_deduplication(event: JobEvent, config: TracingConfig)
    requires
        config.verbosity == TracingVerbosity::Lifecycle,
    ensures
        event.is_emitted(config) <==> event != JobEvent::Deduplicated,
{
}

/// Raising the verbosity takes no event away.
pub proof fn law_verbosity_is_monotone(event: JobEvent, quiet: TracingConfig, loud: TracingConfig)
    requires
        quiet.verbosity.rank() <= loud.verbosity.rank(),
        event.is_emitted(quiet),
    ensures
        event.is_emitted(loud),
{
}

/// Lifecycle events and spans are left out only when tracing is off, and verbose events come only
/// with verbose tracing.
pub proof fn law_verbosity_decides(
    config: TracingConfig,
    lifecycle: bool,
    verbose: bool,
    span: bool,
)
    requires
        call_ensures(emit_lifecycle_traces, (&config,), lifecycle),
        call_ensures(emit_verbose_traces, (&config,), verbose),
        call_ensures(opens_span, (&config,), span),
    ensures
        lifecycle <==> config.verbosity != TracingVerbosity::Off,
        verbose <==> config.verbosity == TracingVerbosity::Verbose,
        span <==> config.verbosity != TracingVerbosity::Off,
{
}

/// A verbosity that is set is in force, and a cell gives back the configuration that it starts
/// with: lifecycle events.
pub proof fn law_configuration_is_kept(
    config: TracingConfig,
    verbosity: TracingVerbosity,
    changed: TracingConfig,
    cell: TracingConfigCell,
    current: TracingConfig,
)
    requires
        call_ensures(TracingConfig::verbosity, (config, verbosity), changed),
        call_ensures(tracing_config_cell, (), cell),
        call_ensures(tracing_config, (&cell,), current),
    ensures
        changed.verbosity == verbosity,
        current.verbosity == TracingVerbosity::Lifecycle,
{
}

/// De-duplication is traced with verbose tracing alone, and every other event unless tracing is
/// off.
pub proof fn law_events_are_traced_by_verbosity(
    event: JobEvent,
    job: Job,
    config: TracingConfig,
    trace: Option<TraceEvent>,
)
    requires
        call_ensures(JobEvent::trace, (&event, &job, &config), trace),
    ensures
        event == JobEvent::Deduplicated ==> (trace is Some <==> config.verbosity
            == TracingVerbosity::Verbose),
        event != JobEvent::Deduplicated ==> (trace is Some <==> config.verbosity
            != TracingVerbosity::Off),
{
}

/// A trace event carries the identifier, class and queue of its job and the retries it has counted,
/// none if it counts none.
pub proof fn law_traces_describe_the_job(
    event: JobEvent,
    job: Job,
    config: TracingConfig,
    trace: TraceEvent,
)
    requires
        call_ensures(JobEvent::trace, (&event, &job, &config), Some(trace)),
    ensures
        trace.jid == job.jid,
        trace.class == job.class,
        trace.queue == job.queue,
        job.retry_count matches Some(count) ==> trace.retry_count == count,
        job.retry_count is None ==> trace.retry_count == 0,
{
}

/// A trace event says what happened, and when the job is due if it is due later.
pub proof fn law_traces_name_the_event(
    event: JobEvent,
    job: Job,
    config: TracingConfig,
    trace: TraceEvent,
)
    requires
        call_ensures(JobEvent::trace, (&event, &job, &config), Some(trace)),
    ensures
        trace.level == TraceLevel::Debug <==> event == JobEvent::Deduplicated,
        match event {
            JobEvent::Enqueued => {
                &&& trace.name@ == "job.enqueued"@
                &&& trace.status@ == "queued"@
                &&& trace.worker_type@ == "async"@
                &&& trace.enqueue_at is None
            },
            JobEvent::Deduplicated => {
                &&& trace.name@ == "job.deduplicated"@
                &&& trace.status@ == "duplicate"@
                &&& trace.worker_type@ == "async"@
                &&& trace.enqueue_at is None
            },
            JobEvent::RetryScheduled(due) => {
                &&& trace.name@ == "job.retry_scheduled"@
                &&& trace.status@ == "retry_scheduled"@
                &&& trace.worker_type@ == "retry"@
                &&& trace.enqueue_at == Some(due)
            },
            JobEvent::Scheduled(due) => {
                &&& trace.name@ == "job.scheduled"@
                &&& trace.status@ == "scheduled"@
                &&& trace.worker_type@ == "scheduled"@
                &&& trace.enqueue_at == Some(due)
            },
        },
{
}

} // verus!
