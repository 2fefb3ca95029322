//! Options a job is enqueued with.

use crate::clock::{is_clock_reading, is_clock_second, read_clock, UtcTime, MAX_UTC_SECS};
use crate::job::{Job, Timestamp};
use crate::json::{json_array, json_array_value, stores_args, wrap_args};
use crate::random::{is_drawn_nonce, is_nonce, new_jid};
use crate::text::copy_optional;
use serde_json::Value as JsonValue;
use std::marker::PhantomData;
use std::time::Duration;
use vstd::prelude::*;

verus! {

/// The conversion of a type into itself returns its argument, as the documentation of
/// `std::convert::From` says.
pub assume_specification<Same>[ <Same as From<Same>>::from ](value: Same) -> (r: Same)
    ensures
        r == value,
;

/// `String::from` copies a string slice.
pub assume_specification<'a>[ <String as From<&'a str>>::from ](value: &str) -> (r: String)
    ensures
        r@ == value@,
;

/// Retry policy of a job.
#[derive(Clone, Copy, Debug, PartialEq, Eq, Structural)]
pub enum RetryOpts {
    /// Use the worker's default retry behavior.
    Yes,
    /// Disable retries for the job.
    Never,
    /// Retry the job at most the provided number of times.
    Max(usize),
}

/// Retry policy as a job payload holds it.
#[derive(Clone, Copy, Debug, PartialEq, Eq, Structural)]
pub enum RetryField {
    /// A boolean.
    Flag(bool),
    /// A non-negative integer.
    Count(u64),
    /// No value.
    Null,
}

impl RetryOpts {
    /// The payload field that stands for this policy.
    pub open spec fn field(self) -> RetryField {
        match self {
            RetryOpts::Yes => RetryField::Flag(true),
            RetryOpts::Never => RetryField::Flag(false),
            RetryOpts::Max(count) => RetryField::Count(count as u64),
        }
    }

    /// The policy that a payload field stands for.
    pub open spec fn of_field(field: RetryField) -> RetryOpts {
        match field {
            RetryField::Flag(true) => RetryOpts::Yes,
            RetryField::Flag(false) => RetryOpts::Never,
            RetryField::Count(count) => RetryOpts::Max(count as usize),
            RetryField::Null => RetryOpts::Never,
        }
    }

    /// Turns the policy into its payload field.
    pub fn serialize(&self) -> (r: RetryField)
        ensures
            r == self.field(),
    {
        match *self {
            RetryOpts::Yes => RetryField::Flag(true),
            RetryOpts::Never => RetryField::Flag(false),
            RetryOpts::Max(count) => RetryField::Count(count as u64),
        }
    }

    /// Reads the policy from a payload field.
    pub fn deserialize(field: RetryField) -> (r: Self)
        ensures
            r == Self::of_field(field),
    {
        match field {
            RetryField::Flag(value) => RetryOpts::from(value),
            RetryField::Count(count) => RetryOpts::Max(count as usize),
            RetryField::Null => RetryOpts::Never,
        }
    }
}

impl From<bool> for RetryOpts {
    fn from(value: bool) -> (r: Self) {
        match value {
            true => RetryOpts::Yes,
            false => RetryOpts::Never,
        }
    }
}

impl vstd::std_specs::convert::FromSpecImpl<bool> for RetryOpts {
    open spec fn obeys_from_spec() -> bool {
        true
    }

    open spec fn from_spec(value: bool) -> Self {
        if value {
            RetryOpts::Yes
        } else {
            RetryOpts::Never
        }
    }
}

impl From<usize> for RetryOpts {
    fn from(value: usize) -> (r: Self) {
        RetryOpts::Max(value)
    }
}

impl vstd::std_specs::convert::FromSpecImpl<usize> for RetryOpts {
    open spec fn obeys_from_spec() -> bool {
        true
    }

    open spec fn from_spec(value: usize) -> Self {
        RetryOpts::Max(value)
    }
}

/// A retry policy read back from its own payload field is the same policy.
pub proof fn law_retry_policy_round_trip(retry: RetryOpts)
    ensures
        RetryOpts::of_field(retry.field()) == retry,
{
}

/// Two retry policies with the same payload field are the same.
pub proof fn law_retry_field_is_injective(a: RetryOpts, b: RetryOpts)
    requires
        a.field() == b.field(),
    ensures
        a == b,
{
    law_retry_policy_round_trip(a);
    law_retry_policy_round_trip(b);
}

/// What a set of options says.
pub struct OptsView {
    /// Target queue.
    pub queue: String,
    /// Retry policy.
    pub retry: RetryOpts,
    /// For how long the job is unique.
    pub unique_for: Option<Duration>,
    /// Queue for retries.
    pub retry_queue: Option<String>,
}

/// Whether `opts` are the defaults: the queue `default`, retries, and nothing else.
pub open spec fn is_default_opts(opts: OptsView) -> bool {
    &&& opts.queue@ == "default"@
    &&& opts.retry == RetryOpts::Yes
    &&& opts.unique_for is None
    &&& opts.retry_queue is None
}

/// Whether `job` is a job just created with `opts` for `class` and `args`.
pub open spec fn is_new_job(job: Job, opts: OptsView, class: String, args: JsonValue) -> bool {
    &&& job.queue == opts.queue
    &&& job.class == class
    &&& stores_args(args, job.args)
    &&& job.retry == opts.retry
    &&& job.retry_queue == opts.retry_queue
    &&& job.unique_for == opts.unique_for
    &&& job.enqueued_at is None
    &&& job.failed_at is None
    &&& job.error_message is None
    &&& job.error_class is None
    &&& job.retry_count is None
    &&& job.retried_at is None
}

/// Whether `job` is such a job with a random identifier and the time of the clock.
pub open spec fn is_fresh_job(job: Job, opts: OptsView, class: String, args: JsonValue) -> bool {
    &&& is_new_job(job, opts, class, args)
    &&& is_nonce(job.jid@)
    &&& is_drawn_nonce(job.jid@)
    &&& job.created_at matches Timestamp::Seconds(secs) && 0 <= secs <= MAX_UTC_SECS
        && is_clock_second(secs)
}

/// Builder for enqueueing jobs by explicit class name.
pub struct EnqueueOpts {
    queue: String,
    retry: RetryOpts,
    unique_for: Option<Duration>,
    retry_queue: Option<String>,
}

impl View for EnqueueOpts {
    type V = OptsView;

    closed spec fn view(&self) -> OptsView {
        OptsView {
            queue: self.queue,
            retry: self.retry,
            unique_for: self.unique_for,
            retry_queue: self.retry_queue,
        }
    }
}

/// Creates default enqueue options for a job.
#[must_use]
pub fn opts() -> (r: EnqueueOpts)
    ensures
        is_default_opts(r@),
{
    EnqueueOpts {
        queue: "default".to_owned(),
        retry: RetryOpts::Yes,
        unique_for: None,
        retry_queue: None,
    }
}

impl EnqueueOpts {
    /// Overrides the target queue.
    #[must_use]
    pub fn queue<S: Into<String>>(self, queue: S) -> (r: Self)
        ensures
            call_ensures(S::into, (queue,), r@.queue),
            r@ == (OptsView { queue: r@.queue, ..self@ }),
    {
        Self { queue: queue.into(), ..self }
    }

    /// Overrides the retry policy for the job.
    #[must_use]
    pub fn retry<RO>(self, retry: RO) -> (r: Self) where RO: Into<RetryOpts>
        ensures
            call_ensures(RO::into, (retry,), r@.retry),
            r@ == (OptsView { retry: r@.retry, ..self@ }),
    {
        Self { retry: retry.into(), ..self }
    }

    /// Makes a job unique for the provided duration. Its lock expires after the whole seconds of the
    /// duration; less than one second asks for an expiry of zero, which Redis refuses.
    #[must_use]
    pub fn unique_for(self, unique_for: Duration) -> (r: Self)
        ensures
            r@ == (OptsView { unique_for: Some(unique_for), ..self@ }),
    {
        Self { unique_for: Some(unique_for), ..self }
    }

    /// Routes retries to a different queue.
    #[must_use]
    pub fn retry_queue(self, retry_queue: String) -> (r: Self)
        ensures
            r@ == (OptsView { retry_queue: Some(retry_queue), ..self@ }),
    {
        Self { retry_queue: Some(retry_queue), ..self }
    }

    /// Creates a job with the given identifier and creation time, in seconds since the Unix epoch,
    /// without enqueueing it.
    pub fn create_job_at(
        &self,
        class: String,
        args: JsonValue,
        jid: String,
        created_at: i64,
    ) -> (r: Job)
        ensures
            is_new_job(r, self@, class, args),
            r.jid == jid,
            r.created_at == Timestamp::Seconds(created_at),
    {
        Job {
            queue: self.queue.clone(),
            class,
            jid,
            created_at: Timestamp::Seconds(created_at),
            enqueued_at: None,
            retry: self.retry,
            args: wrap_args(args),
            error_message: None,
            error_class: None,
            failed_at: None,
            retry_count: None,
            retried_at: None,
            retry_queue: copy_optional(&self.retry_queue),
            unique_for: self.unique_for,
        }
    }

    /// Creates a job without enqueueing it. Its identifier is drawn at random, and the clock says
    /// when it was created.
    pub fn create_job(&self, class: String, args: JsonValue) -> (r: Job)
        ensures
            is_fresh_job(r, self@, class, args),
    {
        self.create_job_at(class, args, new_jid(), read_clock().secs)
    }
}

/// Strongly typed enqueue options bound to a worker type `W`.
pub struct WorkerOpts<Args, W: ?Sized> {
    queue: String,
    retry: RetryOpts,
    args: PhantomData<Args>,
    worker: PhantomData<W>,
    unique_for: Option<Duration>,
    retry_queue: Option<String>,
}

impl<Args, W: ?Sized> View for WorkerOpts<Args, W> {
    type V = OptsView;

    closed spec fn view(&self) -> OptsView {
        OptsView {
            queue: self.queue,
            retry: self.retry,
            unique_for: self.unique_for,
            retry_queue: self.retry_queue,
        }
    }
}

impl<Args, W: ?Sized> WorkerOpts<Args, W> {
    /// Creates a new set of worker enqueue options.
    #[must_use]
    pub fn new() -> (r: Self)
        ensures
            is_default_opts(r@),
    {
        Self {
            queue: "default".to_owned(),
            retry: RetryOpts::Yes,
            args: PhantomData,
            worker: PhantomData,
            unique_for: None,
            retry_queue: None,
        }
    }

    /// Overrides the retry policy for the worker invocation.
    #[must_use]
    pub fn retry<RO>(self, retry: RO) -> (r: Self) where RO: Into<RetryOpts>
        ensures
            call_ensures(RO::into, (retry,), r@.retry),
            r@ == (OptsView { retry: r@.retry, ..self@ }),
    {
        Self { retry: retry.into(), ..self }
    }

    /// Routes retries for this worker invocation to a different queue.
    #[must_use]
    pub fn retry_queue<S: Into<String>>(self, retry_queue: S) -> (r: Self)
        ensures
            r@.retry_queue is Some,
            call_ensures(S::into, (retry_queue,), r@.retry_queue->0),
            r@ == (OptsView { retry_queue: r@.retry_queue, ..self@ }),
    {
        Self { retry_queue: Some(retry_queue.into()), ..self }
    }

    /// Overrides the queue for this worker invocation.
    #[must_use]
    pub fn queue<S: Into<String>>(self, queue: S) -> (r: Self)
        ensures
            call_ensures(S::into, (queue,), r@.queue),
            r@ == (OptsView { queue: r@.queue, ..self@ }),
    {
        Self { queue: queue.into(), ..self }
    }

    /// Makes this worker invocation unique for the provided duration. Its lock expires after the
    /// whole seconds of the duration; less than one second asks for an expiry of zero, which Redis
    /// refuses.
    #[must_use]
    pub fn unique_for(self, unique_for: Duration) -> (r: Self)
        ensures
            r@ == (OptsView { unique_for: Some(unique_for), ..self@ }),
    {
        Self { unique_for: Some(unique_for), ..self }
    }

    /// Converts worker-specific options into generic enqueue options.
    pub fn into_opts(&self) -> (r: EnqueueOpts)
        ensures
            r@ == self@,
    {
        EnqueueOpts {
            retry: self.retry,
            queue: self.queue.clone(),
            unique_for: self.unique_for,
            retry_queue: copy_optional(&self.retry_queue),
        }
    }
}

impl<Args, W: ?Sized> From<&WorkerOpts<Args, W>> for EnqueueOpts {
    fn from(opts: &WorkerOpts<Args, W>) -> (r: Self)
        ensures
            r@ == opts@,
    {
        opts.into_opts()
    }
}

impl<Args, W: ?Sized> vstd::std_specs::convert::FromSpecImpl<&WorkerOpts<Args, W>> for EnqueueOpts {
    open spec fn obeys_from_spec() -> bool {
        true
    }

    closed spec fn from_spec(opts: &WorkerOpts<Args, W>) -> Self {
        EnqueueOpts {
            retry: opts.retry,
            queue: opts.queue,
            unique_for: opts.unique_for,
            retry_queue: opts.retry_queue,
        }
    }
}

impl<Args, W: ?Sized> Default for WorkerOpts<Args, W> {
    fn default() -> (r: Self)
        ensures
            is_default_opts(r@),
    {
        Self::new()
    }
}

/// The policy to retry is written as `true`, the policy not to retry as `false`, and a limit as
/// its number.
pub proof fn law_retry_policies_are_written(retry: RetryOpts, field: RetryField)
    requires
        call_ensures(RetryOpts::serialize, (&retry,), field),
    ensures
        retry == RetryOpts::Yes <==> field == RetryField::Flag(true),
        retry == RetryOpts::Never <==> field == RetryField::Flag(false),
        retry matches RetryOpts::Max(max) ==> field matches RetryField::Count(count) && count
            == max,
{
}

/// `true` is read as the policy to retry, `false` and no value as the policy not to retry, and a
/// number as a limit.
pub proof fn law_retry_policies_are_read(field: RetryField, retry: RetryOpts)
    requires
        call_ensures(RetryOpts::deserialize, (field,), retry),
    ensures
        retry == RetryOpts::Yes <==> field == RetryField::Flag(true),
        retry == RetryOpts::Never <==> field == RetryField::Flag(false) || field
            == RetryField::Null,
        field matches RetryField::Count(count) ==> retry == RetryOpts::Max(count as usize),
{
}

/// A flag says whether to retry, and a number is a limit, zero as well.
pub proof fn law_retry_policies_are_converted(
    flag: bool,
    from_flag: RetryOpts,
    max: usize,
    from_max: RetryOpts,
)
    requires
        call_ensures(<RetryOpts as From<bool>>::from, (flag,), from_flag),
        call_ensures(<RetryOpts as From<usize>>::from, (max,), from_max),
    ensures
        from_flag == RetryOpts::Yes <==> flag,
        from_flag == RetryOpts::Never <==> !flag,
        from_max == RetryOpts::Max(max),
{
}

/// By default a job goes to the queue `default` and is retried, is not unique, and has no queue of
/// its own for retries.
pub proof fn law_default_options(plain: EnqueueOpts)
    requires
        call_ensures(opts, (), plain),
    ensures
        plain@.queue@ == "default"@,
        plain@.retry == RetryOpts::Yes,
        plain@.unique_for is None,
        plain@.retry_queue is None,
{
}

/// A worker's options start with the same defaults.
pub proof fn law_default_worker_options<Args, W>(plain: WorkerOpts<Args, W>)
    requires
        call_ensures(WorkerOpts::<Args, W>::new, (), plain),
    ensures
        plain@.queue@ == "default"@,
        plain@.retry == RetryOpts::Yes,
        plain@.unique_for is None,
        plain@.retry_queue is None,
{
}

/// A worker's options say the same when they are made generic.
pub proof fn law_worker_options_are_kept<Args, W>(given: WorkerOpts<Args, W>, generic: EnqueueOpts)
    requires
        call_ensures(WorkerOpts::<Args, W>::into_opts, (&given,), generic),
    ensures
        generic@.queue == given@.queue,
        generic@.retry == given@.retry,
        generic@.unique_for == given@.unique_for,
        generic@.retry_queue == given@.retry_queue,
{
}

/// A new job says what its options say, keeps its class, identifier and time, and has neither been
/// enqueued nor failed nor been retried.
pub proof fn law_new_job_says_what_it_was_given(
    given: EnqueueOpts,
    class: String,
    args: JsonValue,
    jid: String,
    created_at: i64,
    job: Job,
)
    requires
        call_ensures(EnqueueOpts::create_job_at, (&given, class, args, jid, created_at), job),
    ensures
        job.queue == given@.queue,
        job.retry == given@.retry,
        job.unique_for == given@.unique_for,
        job.retry_queue == given@.retry_queue,
        job.class == class,
        job.jid == jid,
        job.created_at == Timestamp::Seconds(created_at),
        json_array(args) is Some ==> job.args == args,
        json_array(args) is None ==> job.args == json_array_value(seq![args]),
        job.enqueued_at is None,
        job.failed_at is None,
        job.error_message is None,
        job.error_class is None,
        job.retry_count is None,
        job.retried_at is None,
{
}

/// A job that is created now says what its options say, has a drawn identifier, and was created
/// when the clock showed so.
pub proof fn law_job_is_created_by_the_clock(
    given: EnqueueOpts,
    class: String,
    args: JsonValue,
    job: Job,
) -> (now: UtcTime)
    requires
        call_ensures(EnqueueOpts::create_job, (&given, class, args), job),
    ensures
        is_clock_reading(now),
        job.created_at == Timestamp::Seconds(now.secs),
        is_drawn_nonce(job.jid@),
        job.queue == given@.queue,
        job.retry == given@.retry,
        job.unique_for == given@.unique_for,
        job.retry_queue == given@.retry_queue,
        job.class == class,
        json_array(args) is Some ==> job.args == args,
        json_array(args) is None ==> job.args == json_array_value(seq![args]),
        job.enqueued_at is None,
        job.failed_at is None,
        job.error_message is None,
        job.error_class is None,
        job.retry_count is None,
        job.retried_at is None,
{
    let secs = job.created_at->Seconds_0;
    choose|now: UtcTime| #[trigger] is_clock_reading(now) && now.secs == secs
}

} // verus!
