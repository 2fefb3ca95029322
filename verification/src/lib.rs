//! Sidekiq-compatible jobs: what is written to Redis for them, and what workers get of them.
//!
//! The crate decides and computes; it talks to no server. Its entry points are:
//! - [`Worker`] and [`WorkerOpts`] for typed workers, [`perform_async`] and [`perform_in`] for
//!   enqueueing by explicit class name. They return the commands to run.
//! - [`UnitOfWork`] for pushing, scheduling and retrying a job.
//! - [`StatsPublisher`] and [`OpenTelemetryStatsPublisher`] for the heartbeat of a process.
//! - [`TracingConfig`] for how much is traced.

pub mod clock;
pub mod error;
pub mod job;
pub mod json;
pub mod metrics;
pub mod namespace;
pub mod opts;
pub mod random;
pub mod stats;
pub mod telemetry;
pub mod text;
pub mod unit_of_work;
pub mod worker;

pub use error::{Error, Result};
pub use job::{Job, JobPayload, Timestamp};
pub use metrics::OpenTelemetryStatsPublisher;
pub use namespace::Namespace;
pub use opts::{opts, EnqueueOpts, RetryField, RetryOpts, WorkerOpts};
pub use stats::{Counter, StatsPublisher};
pub use telemetry::{
    set_tracing_config,
    tracing_config,
    tracing_config_cell,
    TracingConfig,
    TracingConfigCell,
    TracingVerbosity,
};
pub use unit_of_work::{
    perform_async,
    perform_in,
    Enqueue,
    EnqueueAction,
    EnqueueOutcome,
    Placement,
    Reply,
    UnitOfWork,
    Zadd,
};
pub use worker::{Worker, WorkerRef};
