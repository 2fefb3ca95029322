//! Job payloads.

use crate::opts::{RetryField, RetryOpts};
use crate::text::copy_optional;
use serde_json::Value as JsonValue;
use std::time::Duration;
use vstd::prelude::*;

verus! {

/// A Unix timestamp as a payload holds it.
#[derive(Clone, Copy, Debug, PartialEq, Eq, Structural)]
pub enum Timestamp {
    /// A whole number of seconds.
    Seconds(i64),
    /// A double-precision number of seconds, by its bits.
    Double(u64),
}

/// Raw Sidekiq job.
#[derive(Debug)]
pub struct Job {
    /// Queue name without the `queue:` Redis prefix.
    pub queue: String,
    /// Job arguments.
    pub args: JsonValue,
    /// Retry policy for the job.
    pub retry: RetryOpts,
    /// Sidekiq worker class name.
    pub class: String,
    /// Unique job identifier.
    pub jid: String,
    /// Job creation timestamp.
    pub created_at: Timestamp,
    /// Time when the job was pushed to its queue.
    pub enqueued_at: Option<Timestamp>,
    /// Time when the job first failed.
    pub failed_at: Option<Timestamp>,
    /// Last recorded error message.
    pub error_message: Option<String>,
    /// Last recorded error class name.
    pub error_class: Option<String>,
    /// Number of retry attempts already performed.
    pub retry_count: Option<usize>,
    /// Time when the job was last retried.
    pub retried_at: Option<Timestamp>,
    /// Optional queue name used for retries.
    pub retry_queue: Option<String>,
    /// Duration used for de-duplication when unique jobs are enabled. It is not part of the
    /// payload.
    pub unique_for: Option<Duration>,
}

impl Clone for Job {
    fn clone(&self) -> (r: Self)
        ensures
            r == *self,
    {
        Job {
            queue: self.queue.clone(),
            args: self.args.clone(),
            retry: self.retry,
            class: self.class.clone(),
            jid: self.jid.clone(),
            created_at: self.created_at,
            enqueued_at: self.enqueued_at,
            failed_at: self.failed_at,
            error_message: copy_optional(&self.error_message),
            error_class: copy_optional(&self.error_class),
            retry_count: self.retry_count,
            retried_at: self.retried_at,
            retry_queue: copy_optional(&self.retry_queue),
            unique_for: self.unique_for,
        }
    }
}

/// The fields of a job that Redis stores, in the order in which they are written.
#[derive(Debug)]
pub struct JobPayload {
    /// Field `queue`.
    pub queue: String,
    /// Field `args`.
    pub args: JsonValue,
    /// Field `retry`.
    pub retry: RetryField,
    /// Field `class`.
    pub class: String,
    /// Field `jid`.
    pub jid: String,
    /// Field `created_at`.
    pub created_at: Timestamp,
    /// Field `enqueued_at`.
    pub enqueued_at: Option<Timestamp>,
    /// Field `failed_at`.
    pub failed_at: Option<Timestamp>,
    /// Field `error_message`.
    pub error_message: Option<String>,
    /// Field `error_class`.
    pub error_class: Option<String>,
    /// Field `retry_count`.
    pub retry_count: Option<usize>,
    /// Field `retried_at`.
    pub retried_at: Option<Timestamp>,
    /// Field `retry_queue`.
    pub retry_queue: Option<String>,
}

impl Job {
    /// The payload that stands for this job.
    pub open spec fn payload(self) -> JobPayload {
        JobPayload {
            queue: self.queue,
            args: self.args,
            retry: self.retry.field(),
            class: self.class,
            jid: self.jid,
            created_at: self.created_at,
            enqueued_at: self.enqueued_at,
            failed_at: self.failed_at,
            error_message: self.error_message,
            error_class: self.error_class,
            retry_count: self.retry_count,
            retried_at: self.retried_at,
            retry_queue: self.retry_queue,
        }
    }

    /// The job that a payload stands for.
    pub open spec fn of_payload(payload: JobPayload) -> Job {
        Job {
            queue: payload.queue,
            args: payload.args,
            retry: RetryOpts::of_field(payload.retry),
            class: payload.class,
            jid: payload.jid,
            created_at: payload.created_at,
            enqueued_at: payload.enqueued_at,
            failed_at: payload.failed_at,
            error_message: payload.error_message,
            error_class: payload.error_class,
            retry_count: payload.retry_count,
            retried_at: payload.retried_at,
            retry_queue: payload.retry_queue,
            unique_for: None,
        }
    }

    /// Turns the job into its payload.
    pub fn to_payload(&self) -> (r: JobPayload)
        ensures
            r == self.payload(),
    {
        JobPayload {
            queue: self.queue.clone(),
            args: self.args.clone(),
            retry: self.retry.serialize(),
            class: self.class.clone(),
            jid: self.jid.clone(),
            created_at: self.created_at,
            enqueued_at: self.enqueued_at,
            failed_at: self.failed_at,
            error_message: copy_optional(&self.error_message),
            error_class: copy_optional(&self.error_class),
            retry_count: self.retry_count,
            retried_at: self.retried_at,
            retry_queue: copy_optional(&self.retry_queue),
        }
    }

    /// Reads the job from a payload.
    pub fn from_payload(payload: JobPayload) -> (r: Self)
        ensures
            r == Self::of_payload(payload),
    {
        Job {
            queue: payload.queue,
            args: payload.args,
            retry: RetryOpts::deserialize(payload.retry),
            class: payload.class,
            jid: payload.jid,
            created_at: payload.created_at,
            enqueued_at: payload.enqueued_at,
            failed_at: payload.failed_at,
            error_message: payload.error_message,
            error_class: payload.error_class,
            retry_count: payload.retry_count,
            retried_at: payload.retried_at,
            retry_queue: payload.retry_queue,
            unique_for: None,
        }
    }
}

/// A job read back from its own payload is the same job, except that it no longer says for how
/// long it is unique.
pub proof fn law_job_payload_round_trip(job: Job)
    ensures
        Job::of_payload(job.payload()) == (Job { unique_for: None, ..job }),
{
}

/// Each field of a payload is the field of the same name of the job it was made from.
pub proof fn law_payload_keeps_every_field(job: Job, payload: JobPayload)
    requires
        call_ensures(Job::to_payload, (&job,), payload),
    ensures
        payload.queue == job.queue,
        payload.args == job.args,
        payload.class == job.class,
        payload.jid == job.jid,
        payload.created_at == job.created_at,
        payload.enqueued_at == job.enqueued_at,
        payload.failed_at == job.failed_at,
        payload.error_message == job.error_message,
        payload.error_class == job.error_class,
        payload.retry_count == job.retry_count,
        payload.retried_at == job.retried_at,
        payload.retry_queue == job.retry_queue,
        match job.retry {
            RetryOpts::Yes => payload.retry == RetryField::Flag(true),
            RetryOpts::Never => payload.retry == RetryField::Flag(false),
            RetryOpts::Max(max) => payload.retry matches RetryField::Count(count) && count == max,
        },
{
}

/// Each field of a job is the field of the same name of the payload it was read from.
pub proof fn law_job_keeps_every_field(payload: JobPayload, job: Job)
    requires
        call_ensures(Job::from_payload, (payload,), job),
    ensures
        job.queue == payload.queue,
        job.args == payload.args,
        job.class == payload.class,
        job.jid == payload.jid,
        job.created_at == payload.created_at,
        job.enqueued_at == payload.enqueued_at,
        job.failed_at == payload.failed_at,
        job.error_message == payload.error_message,
        job.error_class == payload.error_class,
        job.retry_count == payload.retry_count,
        job.retried_at == payload.retried_at,
        job.retry_queue == payload.retry_queue,
        job.unique_for is None,
        match payload.retry {
            RetryField::Flag(flag) => job.retry == if flag {
                RetryOpts::Yes
            } else {
                RetryOpts::Never
            },
            RetryField::Count(count) => job.retry == RetryOpts::Max(count as usize),
            RetryField::Null => job.retry == RetryOpts::Never,
        },
{
}

/// A copy of a job is the same job.
pub proof fn law_copies_are_equal(job: Job, copy: Job)
    requires
        call_ensures(Job::clone, (&job,), copy),
    ensures
        copy == job,
{
}

} // verus!
