//! Units of work: how a job is pushed, scheduled and retried.

use crate::clock::{
    checked_second_after,
    delay_from_std,
    duration_nanos,
    duration_secs,
    is_clock_reading,
    is_clock_second,
    is_delay,
    read_clock,
    second_after,
    UtcTime,
    MAX_UTC_SECS,
};
use crate::error::Error;
use crate::job::{Job, JobPayload, Timestamp};
use crate::json::{delivers_args, json_array, json_array_value, json_text, json_to_string};
use crate::opts::{is_fresh_job, opts, EnqueueOpts, OptsView, RetryField, RetryOpts};
use crate::random::{draw_below, is_draw_below, is_drawn_nonce};
use crate::telemetry::{JobEvent, TraceEvent, TraceLevel, TracingConfig, TracingVerbosity};
use crate::text::{
    decimal,
    decimal_text,
    hex_lower,
    holds_colon,
    law_decimal_is_injective,
    law_hex_is_injective,
};
use serde_json::Value as JsonValue;
use std::time::Duration;
use vstd::prelude::*;

verus! {

/// How many different random parts a retry delay can have.
pub const RETRY_JITTER: usize = 30;

/// The SHA-256 digest of `data`.
pub uninterp spec fn sha256(data: Seq<u8>) -> Seq<u8>;

/// Digests the UTF-8 bytes of `text` with `sha2::Sha256::digest`, thirty-two bytes that the data
/// alone decides, and formats them with `{:x}`: two lowercase digits for each byte, the high one
/// first.
#[verifier::external_body]
pub(crate) fn sha256_hex(text: &str) -> (r: String)
    ensures
        r@ == hex_lower(sha256(vstd::utf8::encode_utf8(text@))),
        r@.len() == 64,
{
    format!("{:x}", <sha2::Sha256 as sha2::Digest>::digest(text))
}

/// What ends the key of a lock. A queue whose name holds a colon gives the length of the name, since
/// the key alone does not show where the queue ends and the class begins.
pub open spec fn queue_mark(queue: Seq<char>) -> Seq<char> {
    if queue.contains(':') {
        ":#"@ + decimal(queue.len())
    } else {
        Seq::empty()
    }
}

/// The key of the lock that a unique job takes. It is fixed by the queue, the class and the digest
/// of the arguments.
pub open spec fn unique_key(queue: Seq<char>, class: Seq<char>, args: JsonValue) -> Seq<char> {
    "sidekiq:unique:"@ + queue + ":"@ + class + ":"@ + hex_lower(
        sha256(vstd::utf8::encode_utf8(json_text(args))),
    ) + queue_mark(queue)
}

/// Writes the key of the lock that a unique job takes.
pub fn unique_lock_key(queue: &str, class: &str, args: &JsonValue) -> (r: String)
    ensures
        r@ == unique_key(queue@, class@, *args),
{
    let args_text: String = json_to_string(args).unwrap();
    let digest: String = sha256_hex(args_text.as_str());
    let mut key: String = "sidekiq:unique:".to_owned();
    key.append(queue);
    key.append(":");
    key.append(class);
    key.append(":");
    key.append(digest.as_str());
    if holds_colon(queue) {
        key.append(":#");
        key.append(decimal_text(queue.unicode_len() as u64).as_str());
    }
    assert(key@ =~= unique_key(queue@, class@, *args));
    key
}

/// A fetched job together with the Redis queue key it belongs to.
#[derive(Debug)]
pub struct UnitOfWork {
    /// Redis queue key, usually in the form `queue:<name>`.
    pub queue: String,
    /// Job to execute.
    pub job: Job,
}

/// How the pushing of a job ended.
#[derive(Clone, Copy, Debug, PartialEq, Eq, Structural)]
pub enum EnqueueOutcome {
    /// The job is in its queue.
    Queued,
    /// The job was dropped, since one like it holds the lock.
    Duplicate,
}

/// What is left to do to push a job.
#[derive(Debug)]
pub enum EnqueueStage {
    /// Take the lock of a unique job.
    Lock {
        /// Key of the lock.
        key: String,
        /// Seconds after which the lock expires.
        ttl_secs: usize,
    },
    /// Make the queue known.
    Register,
    /// Push the payload.
    Push,
    /// Nothing.
    Finished(EnqueueOutcome),
}

/// The pushing of a job: what to ask of Redis next, and how the answer is followed up.
#[derive(Debug)]
pub struct Enqueue {
    /// Job, stamped with the time at which it is enqueued.
    pub job: Job,
    /// Redis key of the queue.
    pub queue_key: String,
    /// What is left to do.
    pub stage: EnqueueStage,
}

/// A command to Redis, or the end.
#[derive(Debug)]
pub enum EnqueueAction {
    /// `SET key value NX EX ttl_secs`.
    SetNxEx {
        /// Key.
        key: String,
        /// Value.
        value: String,
        /// Seconds after which the key expires.
        ttl_secs: usize,
    },
    /// `SADD key member`.
    Sadd {
        /// Key.
        key: String,
        /// Member.
        member: String,
    },
    /// `LPUSH key payload`.
    Lpush {
        /// Key.
        key: String,
        /// Payload.
        payload: JobPayload,
    },
    /// Nothing is left to do.
    Done(EnqueueOutcome),
}

/// What an [`EnqueueAction`] says.
pub enum EnqueueActionView {
    /// `SET key value NX EX ttl_secs`.
    SetNxEx { key: Seq<char>, value: Seq<char>, ttl_secs: usize },
    /// `SADD key member`.
    Sadd { key: Seq<char>, member: Seq<char> },
    /// `LPUSH key payload`.
    Lpush { key: Seq<char>, payload: JobPayload },
    /// Nothing is left to do.
    Done(EnqueueOutcome),
}

impl View for EnqueueAction {
    type V = EnqueueActionView;

    open spec fn view(&self) -> EnqueueActionView {
        match *self {
            EnqueueAction::SetNxEx { key, value, ttl_secs } => EnqueueActionView::SetNxEx {
                key: key@,
                value: value@,
                ttl_secs,
            },
            EnqueueAction::Sadd { key, member } => EnqueueActionView::Sadd {
                key: key@,
                member: member@,
            },
            EnqueueAction::Lpush { key, payload } => EnqueueActionView::Lpush {
                key: key@,
                payload,
            },
            EnqueueAction::Done(outcome) => EnqueueActionView::Done(outcome),
        }
    }
}

/// An answer of Redis to a command.
#[derive(Clone, Copy, Debug, PartialEq, Eq, Structural)]
pub enum Reply {
    /// Nil: a conditional `SET` that was not performed.
    Nil,
    /// Anything else.
    Value,
}

impl Enqueue {
    /// What to ask of Redis next.
    pub open spec fn next_action(self) -> EnqueueActionView {
        match self.stage {
            EnqueueStage::Lock { key, ttl_secs } => EnqueueActionView::SetNxEx {
                key: key@,
                value: Seq::empty(),
                ttl_secs,
            },
            EnqueueStage::Register => EnqueueActionView::Sadd {
                key: "queues"@,
                member: self.job.queue@,
            },
            EnqueueStage::Push => EnqueueActionView::Lpush {
                key: self.queue_key@,
                payload: self.job.payload(),
            },
            EnqueueStage::Finished(outcome) => EnqueueActionView::Done(outcome),
        }
    }

    /// What is left to do after the answer `reply`.
    pub open spec fn stage_after(self, reply: Reply) -> EnqueueStage {
        match self.stage {
            EnqueueStage::Lock { key, ttl_secs } => if reply == Reply::Nil {
                EnqueueStage::Finished(EnqueueOutcome::Duplicate)
            } else {
                EnqueueStage::Register
            },
            EnqueueStage::Register => EnqueueStage::Push,
            EnqueueStage::Push => EnqueueStage::Finished(EnqueueOutcome::Queued),
            EnqueueStage::Finished(outcome) => EnqueueStage::Finished(outcome),
        }
    }

    /// The pushing after the answer `reply`.
    pub open spec fn after(self, reply: Reply) -> Enqueue {
        Enqueue { stage: self.stage_after(reply), ..self }
    }

    /// All that is asked of Redis while it answers `replies`, and what comes next.
    pub open spec fn actions(self, replies: Seq<Reply>) -> Seq<EnqueueActionView>
        decreases replies.len(),
    {
        if replies.len() == 0 {
            seq![self.next_action()]
        } else {
            seq![self.next_action()] + self.after(replies[0]).actions(replies.skip(1))
        }
    }

    /// All that is asked of Redis until it has given `answers` or a command fails, and what comes
    /// next unless one has failed.
    pub open spec fn asked<E>(self, answers: Seq<Result<Reply, E>>) -> Seq<EnqueueActionView>
        decreases answers.len(),
    {
        if answers.len() == 0 {
            seq![self.next_action()]
        } else {
            match answers[0] {
                Ok(reply) => seq![self.next_action()] + self.after(reply).asked(answers.skip(1)),
                Err(_) => seq![self.next_action()],
            }
        }
    }

    /// The pushing after `answers`, or the first error among them.
    pub open spec fn result<E>(self, answers: Seq<Result<Reply, E>>) -> Result<Enqueue, E>
        decreases answers.len(),
    {
        if answers.len() == 0 {
            Ok(self)
        } else {
            match answers[0] {
                Ok(reply) => self.after(reply).result(answers.skip(1)),
                Err(error) => Err(error),
            }
        }
    }

    /// Returns what to ask of Redis next.
    pub fn action(&self) -> (r: EnqueueAction)
        ensures
            r@ == self.next_action(),
    {
        match &self.stage {
            EnqueueStage::Lock { key, ttl_secs } => EnqueueAction::SetNxEx {
                key: key.clone(),
                value: String::new(),
                ttl_secs: *ttl_secs,
            },
            EnqueueStage::Register => EnqueueAction::Sadd {
                key: "queues".to_owned(),
                member: self.job.queue.clone(),
            },
            EnqueueStage::Push => EnqueueAction::Lpush {
                key: self.queue_key.clone(),
                payload: self.job.to_payload(),
            },
            EnqueueStage::Finished(outcome) => EnqueueAction::Done(*outcome),
        }
    }

    /// Follows up the answer `reply` of Redis to the last command.
    pub fn resume(self, reply: Reply) -> (r: Self)
        ensures
            r == self.after(reply),
    {
        let stage: EnqueueStage = match self.stage {
            EnqueueStage::Lock { key, ttl_secs } => match reply {
                Reply::Nil => EnqueueStage::Finished(EnqueueOutcome::Duplicate),
                Reply::Value => EnqueueStage::Register,
            },
            EnqueueStage::Register => EnqueueStage::Push,
            EnqueueStage::Push => EnqueueStage::Finished(EnqueueOutcome::Queued),
            EnqueueStage::Finished(outcome) => EnqueueStage::Finished(outcome),
        };
        Enqueue { job: self.job, queue_key: self.queue_key, stage }
    }

    /// Follows up what came of the last command. An error ends the pushing and is handed on.
    pub fn follow<E>(self, answer: Result<Reply, E>) -> (r: Result<Self, E>)
        ensures
            match answer {
                Ok(reply) => r == Ok::<Enqueue, E>(self.after(reply)),
                Err(error) => r == Err::<Enqueue, E>(error),
            },
            r == self.result(seq![answer]),
    {
        proof {
            reveal_with_fuel(Enqueue::result, 2);
            assert(seq![answer].skip(1) =~= Seq::empty());
        }
        match answer {
            Ok(reply) => Ok(self.resume(reply)),
            Err(error) => Err(error),
        }
    }

    /// Returns the trace event to emit about the job, which there is only at the end.
    pub fn trace(&self, config: &TracingConfig) -> (r: Option<TraceEvent>)
        ensures
            match self.stage {
                EnqueueStage::Finished(outcome) => {
                    let event = outcome.event();
                    match r {
                        Some(trace) => event.is_emitted(*config) && event.is_reported_by(
                            self.job,
                            trace,
                        ),
                        None => !event.is_emitted(*config),
                    }
                },
                _ => r is None,
            },
    {
        match &self.stage {
            EnqueueStage::Finished(EnqueueOutcome::Queued) => JobEvent::Enqueued.trace(
                &self.job,
                config,
            ),
            EnqueueStage::Finished(EnqueueOutcome::Duplicate) => JobEvent::Deduplicated.trace(
                &self.job,
                config,
            ),
            _ => None,
        }
    }
}

impl EnqueueOutcome {
    /// The event that this outcome is.
    pub open spec fn event(self) -> JobEvent {
        match self {
            EnqueueOutcome::Queued => JobEvent::Enqueued,
            EnqueueOutcome::Duplicate => JobEvent::Deduplicated,
        }
    }
}

/// `ZADD key payload score`, which places a job at a time to come.
#[derive(Debug)]
pub struct Zadd {
    /// Key.
    pub key: &'static str,
    /// Payload.
    pub payload: JobPayload,
    /// Score, a Unix time in seconds.
    pub score: i64,
    /// What has happened to the job once the command is done.
    pub event: JobEvent,
}

impl Zadd {
    /// Whether this command schedules `job` to run when `duration` has passed since `now`.
    pub open spec fn schedules(self, job: Job, duration: Duration, now: UtcTime) -> bool {
        &&& self.key@ == "schedule"@
        &&& self.payload == job.payload()
        &&& self.score == scheduled_second(duration, now)
        &&& self.event == JobEvent::Scheduled(self.score)
    }

    /// Whether this command schedules the retry number `count` of `job` at `now`, with the random
    /// part `jitter`.
    pub open spec fn retries(self, job: Job, count: usize, jitter: usize, now: UtcTime) -> bool {
        &&& self.key@ == "retry"@
        &&& self.payload == job.payload()
        &&& self.score == retry_second(count, jitter, now)
        &&& self.event == JobEvent::RetryScheduled(self.score)
    }
}

/// The placing of a job at a time to come.
#[derive(Debug)]
pub enum Placement {
    /// The command that places it.
    At(Zadd),
    /// The time lies after the last date that UTC can name.
    BeyondCalendar,
}

impl Placement {
    /// Whether this schedules `job` to run when `duration` has passed since `now`.
    pub open spec fn schedules(self, job: Job, duration: Duration, now: UtcTime) -> bool {
        match self {
            Placement::At(zadd) => zadd.schedules(job, duration, now) && zadd.score
                <= MAX_UTC_SECS,
            Placement::BeyondCalendar => scheduled_second(duration, now) > MAX_UTC_SECS,
        }
    }

    /// Whether this schedules the retry number `count` of `job` at `now`, with the random part
    /// `jitter`.
    pub open spec fn retries(self, job: Job, count: usize, jitter: usize, now: UtcTime) -> bool {
        match self {
            Placement::At(zadd) => zadd.retries(job, count, jitter, now) && zadd.score
                <= MAX_UTC_SECS,
            Placement::BeyondCalendar => retry_second(count, jitter, now) > MAX_UTC_SECS,
        }
    }
}

/// The second in which `duration` has passed since `now`.
pub open spec fn scheduled_second(duration: Duration, now: UtcTime) -> int {
    second_after(now, duration_secs(duration) as int, duration_nanos(duration) as int)
}

/// The seconds by which the retry number `count` is delayed, of which `jitter` decides the random
/// part.
pub open spec fn retry_delay_secs(count: int, jitter: int) -> int {
    count * count * count * count + 15 + jitter * (count + 1)
}

/// The second in which the retry number `count` is due if it is scheduled at `now`.
pub open spec fn retry_second(count: usize, jitter: usize, now: UtcTime) -> int {
    now.secs + retry_delay_secs(count as int, jitter as int)
}

proof fn lemma_fourth_power_bound(count: int)
    requires
        0 <= count,
    ensures
        count <= 65535 ==> 0 <= count * count <= 65535 * 65535,
        count <= 65535 ==> 0 <= count * count * count <= 65535 * 65535 * 65535,
        count <= 65535 ==> 0 <= count * count * count * count <= 65535 * 65535 * 65535 * 65535,
        count >= 65536 ==> count * count * count * count >= 65536 * 65536 * 65536 * 65536,
{
    let square: int = count * count;
    let cube: int = square * count;
    if count <= 65535 {
        assert(0 <= square <= 65535 * 65535) by (nonlinear_arith)
            requires
                0 <= count <= 65535,
                square == count * count,
        ;
        assert(0 <= cube <= 65535 * 65535 * 65535) by (nonlinear_arith)
            requires
                0 <= count <= 65535,
                0 <= square <= 65535 * 65535,
                cube == square * count,
        ;
        assert(0 <= cube * count <= 65535 * 65535 * 65535 * 65535) by (nonlinear_arith)
            requires
                0 <= count <= 65535,
                0 <= cube <= 65535 * 65535 * 65535,
        ;
    } else {
        assert(square >= 65536 * 65536) by (nonlinear_arith)
            requires
                count >= 65536,
                square == count * count,
        ;
        assert(cube >= 65536 * 65536 * 65536) by (nonlinear_arith)
            requires
                count >= 65536,
                square >= 65536 * 65536,
                cube == square * count,
        ;
        assert(cube * count >= 65536 * 65536 * 65536 * 65536) by (nonlinear_arith)
            requires
                count >= 65536,
                cube >= 65536 * 65536 * 65536,
        ;
    }
}

/// Returns the seconds by which the retry number `count` is delayed, or `None` if they do not fit.
pub fn retry_delay(count: usize, jitter: usize) -> (r: Option<u64>)
    requires
        jitter < RETRY_JITTER,
    ensures
        match r {
            Some(secs) => secs == retry_delay_secs(count as int, jitter as int),
            None => retry_delay_secs(count as int, jitter as int) > u64::MAX,
        },
{
    proof {
        lemma_fourth_power_bound(count as int);
        assert(0 <= jitter * (count + 1) <= 29 * (count + 1)) by (nonlinear_arith)
            requires
                0 <= jitter <= 29,
                0 <= count,
        ;
    }
    if count > 65535 {
        return None;
    }
    let count: u64 = count as u64;
    Some(count * count * count * count + 15 + (jitter as u64) * (count + 1))
}

impl UnitOfWork {
    /// Wraps a raw [`Job`] into a [`UnitOfWork`].
    #[must_use]
    pub fn from_job(job: Job) -> (r: Self)
        ensures
            r.queue@ == "queue:"@ + job.queue@,
            r.job == job,
    {
        let mut queue: String = "queue:".to_owned();
        queue.append(job.queue.as_str());
        UnitOfWork { queue, job }
    }

    /// Whether `enqueue` is the pushing of this job at the Unix time `now`, before the first
    /// command.
    pub open spec fn is_enqueued_by(self, enqueue: Enqueue, now: i64) -> bool {
        &&& enqueue.job == (Job { enqueued_at: Some(Timestamp::Seconds(now)), ..self.job })
        &&& enqueue.queue_key == self.queue
        &&& match self.job.unique_for {
            Some(duration) => {
                &&& enqueue.stage matches EnqueueStage::Lock { key, ttl_secs }
                &&& key@ == unique_key(self.job.queue@, self.job.class@, self.job.args)
                &&& ttl_secs == duration_secs(duration) as usize
            },
            None => enqueue.stage == EnqueueStage::Register,
        }
    }

    /// Starts to push the job at the Unix time `now`.
    pub fn enqueue_direct(&self, now: i64) -> (r: Enqueue)
        ensures
            self.is_enqueued_by(r, now),
    {
        let mut job: Job = self.job.clone();
        job.enqueued_at = Some(Timestamp::Seconds(now));
        let stage: EnqueueStage = match job.unique_for {
            Some(duration) => EnqueueStage::Lock {
                key: unique_lock_key(job.queue.as_str(), job.class.as_str(), &job.args),
                ttl_secs: duration.as_secs() as usize,
            },
            None => EnqueueStage::Register,
        };
        Enqueue { job, queue_key: self.queue.clone(), stage }
    }

    /// Starts to push the job now.
    pub fn enqueue(&self) -> (r: Enqueue)
        ensures
            exists|now: i64|
                0 <= now <= MAX_UTC_SECS && is_clock_second(now) && #[trigger] self.is_enqueued_by(
                    r,
                    now,
                ),
    {
        self.enqueue_direct(read_clock().secs)
    }

    /// Returns the second in which the retry number `count` is due if it is scheduled at `now`.
    pub fn retry_job_at(count: usize, jitter: usize, now: &UtcTime) -> (r: i64)
        requires
            jitter < RETRY_JITTER,
            now.is_valid(),
            retry_second(count, jitter, *now) <= MAX_UTC_SECS,
        ensures
            r == retry_second(count, jitter, *now),
    {
        let delay: u64 = retry_delay(count, jitter).unwrap();
        checked_second_after(now, delay, 0).unwrap()
    }

    /// Schedules the job for retry at `now`, if it counts its retries.
    pub fn reenqueue_at(&self, jitter: usize, now: &UtcTime) -> (r: Option<Zadd>)
        requires
            jitter < RETRY_JITTER,
            now.is_valid(),
            self.job.retry_count matches Some(count) ==> retry_second(count, jitter, *now)
                <= MAX_UTC_SECS,
        ensures
            match self.job.retry_count {
                Some(count) => r matches Some(zadd) && zadd.retries(self.job, count, jitter, *now),
                None => r is None,
            },
    {
        match self.job.retry_count {
            Some(count) => {
                let score: i64 = Self::retry_job_at(count, jitter, now);
                Some(
                    Zadd {
                        key: "retry",
                        payload: self.job.to_payload(),
                        score,
                        event: JobEvent::RetryScheduled(score),
                    },
                )
            },
            None => None,
        }
    }

    /// Schedules the job for retry at `now`, if it counts its retries and UTC has a date for it.
    pub fn retry_placement(&self, jitter: usize, now: &UtcTime) -> (r: Option<Placement>)
        requires
            jitter < RETRY_JITTER,
            now.is_valid(),
        ensures
            match self.job.retry_count {
                Some(count) => r matches Some(placement) && placement.retries(
                    self.job,
                    count,
                    jitter,
                    *now,
                ) && (placement is BeyondCalendar <==> retry_second(count, jitter, *now)
                    > MAX_UTC_SECS),
                None => r is None,
            },
    {
        if let Some(count) = self.job.retry_count {
            let due: Option<i64> = match retry_delay(count, jitter) {
                Some(delay) => checked_second_after(now, delay, 0),
                None => None,
            };
            if due.is_none() {
                return Some(Placement::BeyondCalendar);
            }
        }
        match self.reenqueue_at(jitter, now) {
            Some(zadd) => Some(Placement::At(zadd)),
            None => None,
        }
    }

    /// Schedules the job for retry, if it counts its retries, with a random delay from now.
    pub fn reenqueue(&self) -> (r: Option<Placement>)
        ensures
            match self.job.retry_count {
                Some(count) => r matches Some(placement) && exists|jitter: usize, now: UtcTime|
                    {
                        &&& jitter < RETRY_JITTER
                        &&& is_draw_below(RETRY_JITTER, jitter)
                        &&& now.is_valid()
                        &&& is_clock_reading(now)
                        &&& #[trigger] placement.retries(self.job, count, jitter, now)
                    },
                None => r is None,
            },
    {
        self.retry_placement(draw_below(RETRY_JITTER), &read_clock())
    }

    /// Schedules the job to run when `duration` has passed since `now`.
    pub fn schedule_at(&self, duration: Duration, now: &UtcTime) -> (r: Result<Zadd, Error>)
        requires
            now.is_valid(),
            is_delay(duration) ==> scheduled_second(duration, *now) <= MAX_UTC_SECS,
        ensures
            match r {
                Ok(zadd) => is_delay(duration) && zadd.schedules(self.job, duration, *now),
                Err(Error::ChronoRange(_)) => !is_delay(duration),
            },
    {
        match delay_from_std(duration) {
            Ok((secs, nanos)) => {
                let score: i64 = checked_second_after(now, secs as u64, nanos).unwrap();
                Ok(
                    Zadd {
                        key: "schedule",
                        payload: self.job.to_payload(),
                        score,
                        event: JobEvent::Scheduled(score),
                    },
                )
            },
            Err(error) => Err(Error::ChronoRange(error)),
        }
    }

    /// Schedules the job to run when `duration` has passed since `now`, if UTC has a date for it.
    pub fn schedule_placement(&self, duration: Duration, now: &UtcTime) -> (r: Result<
        Placement,
        Error,
    >)
        requires
            now.is_valid(),
        ensures
            match r {
                Ok(placement) => is_delay(duration) && placement.schedules(
                    self.job,
                    duration,
                    *now,
                ) && (placement is BeyondCalendar <==> scheduled_second(duration, *now)
                    > MAX_UTC_SECS),
                Err(Error::ChronoRange(_)) => !is_delay(duration),
            },
    {
        if let Ok((secs, nanos)) = delay_from_std(duration) {
            if checked_second_after(now, secs as u64, nanos).is_none() {
                return Ok(Placement::BeyondCalendar);
            }
        }
        match self.schedule_at(duration, now) {
            Ok(zadd) => Ok(Placement::At(zadd)),
            Err(error) => Err(error),
        }
    }

    /// Schedules the job to run when `duration` has passed from now.
    pub fn schedule(&self, duration: Duration) -> (r: Result<Placement, Error>)
        ensures
            match r {
                Ok(placement) => is_delay(duration) && exists|now: UtcTime|
                    now.is_valid() && is_clock_reading(now) && #[trigger] placement.schedules(
                        self.job,
                        duration,
                        now,
                    ),
                Err(Error::ChronoRange(_)) => !is_delay(duration),
            },
    {
        self.schedule_placement(duration, &read_clock())
    }
}

/// Whether `enqueue` starts to push a job just created with `opts` for `class` and `args`.
pub open spec fn enqueues_new_job(
    enqueue: Enqueue,
    opts: OptsView,
    class: String,
    args: JsonValue,
) -> bool {
    exists|unit: UnitOfWork, now: i64|
        {
            &&& is_fresh_job(unit.job, opts, class, args)
            &&& unit.queue@ == "queue:"@ + unit.job.queue@
            &&& 0 <= now <= MAX_UTC_SECS
            &&& is_clock_second(now)
            &&& #[trigger] unit.is_enqueued_by(enqueue, now)
        }
}

/// Whether `placement` schedules a job just created with `opts` for `class` and `args` to run when
/// `duration` has passed.
pub open spec fn schedules_new_job(
    placement: Placement,
    opts: OptsView,
    class: String,
    args: JsonValue,
    duration: Duration,
) -> bool {
    exists|job: Job, now: UtcTime|
        {
            &&& is_fresh_job(job, opts, class, args)
            &&& now.is_valid()
            &&& is_clock_reading(now)
            &&& #[trigger] placement.schedules(job, duration, now)
        }
}

impl EnqueueOpts {
    /// Starts to enqueue a job for immediate execution.
    pub fn perform_async(self, class: String, args: JsonValue) -> (r: Enqueue)
        ensures
            enqueues_new_job(r, self@, class, args),
    {
        let job: Job = self.create_job(class, args);
        UnitOfWork::from_job(job).enqueue()
    }

    /// Schedules a job to run after the provided delay.
    pub fn perform_in(&self, class: String, duration: Duration, args: JsonValue) -> (r: Result<
        Placement,
        Error,
    >)
        ensures
            match r {
                Ok(placement) => is_delay(duration) && schedules_new_job(
                    placement,
                    self@,
                    class,
                    args,
                    duration,
                ),
                Err(Error::ChronoRange(_)) => !is_delay(duration),
            },
    {
        let job: Job = self.create_job(class, args);
        UnitOfWork::from_job(job).schedule(duration)
    }
}

/// Whether `opts` are the defaults but for the queue.
pub open spec fn is_default_opts_on(opts: OptsView, queue: String) -> bool {
    &&& opts.queue == queue
    &&& opts.retry == RetryOpts::Yes
    &&& opts.unique_for is None
    &&& opts.retry_queue is None
}

/// Starts to enqueue a job for a worker of any language, by its class name.
pub fn perform_async(class: String, queue: String, args: JsonValue) -> (r: Enqueue)
    ensures
        exists|opts: OptsView|
            is_default_opts_on(opts, queue) && #[trigger] enqueues_new_job(r, opts, class, args),
{
    opts().queue(queue).perform_async(class, args)
}

/// Schedules a job for a worker of any language, by its class name.
pub fn perform_in(duration: Duration, class: String, queue: String, args: JsonValue) -> (r: Result<
    Placement,
    Error,
>)
    ensures
        match r {
            Ok(placement) => is_delay(duration) && exists|opts: OptsView|
                is_default_opts_on(opts, queue) && #[trigger] schedules_new_job(
                    placement,
                    opts,
                    class,
                    args,
                    duration,
                ),
            Err(Error::ChronoRange(_)) => !is_delay(duration),
        },
{
    opts().queue(queue).perform_in(class, duration, args)
}

/// A job that need not be unique makes its queue known, is pushed once, and is then done, whatever
/// Redis answers.
pub proof fn law_plain_job_is_pushed(
    unit: UnitOfWork,
    enqueue: Enqueue,
    now: i64,
    first: Reply,
    second: Reply,
)
    requires
        unit.job.unique_for is None,
        unit.is_enqueued_by(enqueue, now),
    ensures
        enqueue.actions(seq![first, second]) == seq![
            EnqueueActionView::Sadd { key: "queues"@, member: unit.job.queue@ },
            EnqueueActionView::Lpush { key: unit.queue@, payload: enqueue.job.payload() },
            EnqueueActionView::Done(EnqueueOutcome::Queued),
        ],
{
    reveal_with_fuel(Enqueue::actions, 3);
    assert(seq![first, second].skip(1) =~= seq![second]);
    assert(seq![second].skip(1) =~= Seq::<Reply>::empty());
}

/// A unique job that gets its lock makes its queue known, is pushed once, and is then done.
pub proof fn law_unique_job_with_lock_is_pushed(
    unit: UnitOfWork,
    enqueue: Enqueue,
    now: i64,
    duration: Duration,
    second: Reply,
    third: Reply,
)
    requires
        unit.job.unique_for == Some(duration),
        unit.is_enqueued_by(enqueue, now),
    ensures
        enqueue.actions(seq![Reply::Value, second, third]) == seq![
            EnqueueActionView::SetNxEx {
                key: unique_key(unit.job.queue@, unit.job.class@, unit.job.args),
                value: Seq::empty(),
                ttl_secs: duration_secs(duration) as usize,
            },
            EnqueueActionView::Sadd { key: "queues"@, member: unit.job.queue@ },
            EnqueueActionView::Lpush { key: unit.queue@, payload: enqueue.job.payload() },
            EnqueueActionView::Done(EnqueueOutcome::Queued),
        ],
{
    reveal_with_fuel(Enqueue::actions, 4);
    assert(seq![Reply::Value, second, third].skip(1) =~= seq![second, third]);
    assert(seq![second, third].skip(1) =~= seq![third]);
    assert(seq![third].skip(1) =~= Seq::<Reply>::empty());
}

/// A unique job whose lock is taken asks for the lock and for nothing else: neither its queue nor
/// its payload is written.
pub proof fn law_duplicate_is_dropped(
    unit: UnitOfWork,
    enqueue: Enqueue,
    now: i64,
    duration: Duration,
)
    requires
        unit.job.unique_for == Some(duration),
        unit.is_enqueued_by(enqueue, now),
    ensures
        enqueue.actions(seq![Reply::Nil]) == seq![
            EnqueueActionView::SetNxEx {
                key: unique_key(unit.job.queue@, unit.job.class@, unit.job.args),
                value: Seq::empty(),
                ttl_secs: duration_secs(duration) as usize,
            },
            EnqueueActionView::Done(EnqueueOutcome::Duplicate),
        ],
{
    reveal_with_fuel(Enqueue::actions, 2);
    assert(seq![Reply::Nil].skip(1) =~= Seq::<Reply>::empty());
}

/// Once pushing is done it stays done, with the same outcome.
pub proof fn law_finished_stays_finished(
    enqueue: Enqueue,
    outcome: EnqueueOutcome,
    replies: Seq<Reply>,
    i: int,
)
    requires
        enqueue.stage == EnqueueStage::Finished(outcome),
        0 <= i <= replies.len(),
    ensures
        enqueue.actions(replies).len() == replies.len() + 1,
        enqueue.actions(replies)[i] == EnqueueActionView::Done(outcome),
    decreases replies.len(),
{
    if replies.len() > 0 {
        let rest = replies.skip(1);
        if i > 0 {
            law_finished_stays_finished(enqueue.after(replies[0]), outcome, rest, i - 1);
        } else {
            law_finished_stays_finished(enqueue.after(replies[0]), outcome, rest, 0);
        }
    }
}

/// What Redis answers when it gives `replies` and then fails with `error`.
pub open spec fn failing<E>(replies: Seq<Reply>, error: E) -> Seq<Result<Reply, E>> {
    replies.map_values(|reply: Reply| Ok::<Reply, E>(reply)).push(Err(error))
}

/// A command that fails ends the pushing with its error: all that was asked of Redis is what led up
/// to that command and the command itself.
pub proof fn law_failed_command_ends_pushing<E>(enqueue: Enqueue, replies: Seq<Reply>, error: E)
    ensures
        enqueue.result(failing(replies, error)) == Err::<Enqueue, E>(error),
        enqueue.asked(failing(replies, error)) == enqueue.actions(replies),
    decreases replies.len(),
{
    let answers = failing(replies, error);
    if replies.len() > 0 {
        assert(answers[0] == Ok::<Reply, E>(replies[0]));
        assert(answers.skip(1) =~= failing(replies.skip(1), error));
        law_failed_command_ends_pushing(enqueue.after(replies[0]), replies.skip(1), error);
    } else {
        assert(answers[0] == Err::<Reply, E>(error));
    }
}

/// A unique job that got its lock and then fails to make its queue known, or to be pushed, ends
/// with that error and leaves its lock in place: no other command is sent. Pushing the same job
/// again while the lock lasts asks for that lock and, as it is taken, for nothing else.
pub proof fn law_lock_outlives_a_failure<E>(
    unit: UnitOfWork,
    enqueue: Enqueue,
    now: i64,
    again: Enqueue,
    later: i64,
    duration: Duration,
    reply: Reply,
    error: E,
)
    requires
        unit.job.unique_for == Some(duration),
        unit.is_enqueued_by(enqueue, now),
        unit.is_enqueued_by(again, later),
    ensures
        ({
            let lock = EnqueueActionView::SetNxEx {
                key: unique_key(unit.job.queue@, unit.job.class@, unit.job.args),
                value: Seq::empty(),
                ttl_secs: duration_secs(duration) as usize,
            };
            let register = EnqueueActionView::Sadd { key: "queues"@, member: unit.job.queue@ };
            let push = EnqueueActionView::Lpush {
                key: unit.queue@,
                payload: enqueue.job.payload(),
            };
            let unregistered = failing(seq![Reply::Value], error);
            let unpushed = failing(seq![Reply::Value, reply], error);
            &&& enqueue.result(unregistered) == Err::<Enqueue, E>(error)
            &&& enqueue.asked(unregistered) == seq![lock, register]
            &&& enqueue.result(unpushed) == Err::<Enqueue, E>(error)
            &&& enqueue.asked(unpushed) == seq![lock, register, push]
            &&& again.actions(seq![Reply::Nil]) == seq![
                lock,
                EnqueueActionView::Done(EnqueueOutcome::Duplicate),
            ]
        }),
{
    reveal_with_fuel(Enqueue::actions, 3);
    law_failed_command_ends_pushing(enqueue, seq![Reply::Value], error);
    law_failed_command_ends_pushing(enqueue, seq![Reply::Value, reply], error);
    law_duplicate_is_dropped(unit, again, later, duration);
    assert(seq![Reply::Value].skip(1) =~= Seq::<Reply>::empty());
    assert(seq![Reply::Value, reply].skip(1) =~= seq![reply]);
    assert(seq![reply].skip(1) =~= Seq::<Reply>::empty());
}

/// Pushing changes nothing of a job but the time at which it was enqueued, and a job read from the
/// pushed payload is that job again, except that it no longer says for how long it is unique.
pub proof fn law_pushed_payload_is_the_job(unit: UnitOfWork, enqueue: Enqueue, now: i64)
    requires
        unit.is_enqueued_by(enqueue, now),
    ensures
        Job::of_payload(enqueue.job.payload()) == (Job {
            enqueued_at: Some(Timestamp::Seconds(now)),
            unique_for: None,
            ..unit.job
        }),
{
}

/// Two unique jobs with the same queue, class and arguments compete for one lock, whatever else
/// sets them apart.
pub proof fn law_unique_lock_is_shared(
    a: UnitOfWork,
    b: UnitOfWork,
    enqueue_a: Enqueue,
    enqueue_b: Enqueue,
    now_a: i64,
    now_b: i64,
)
    requires
        a.job.queue@ == b.job.queue@,
        a.job.class@ == b.job.class@,
        json_text(a.job.args) == json_text(b.job.args),
        a.job.unique_for is Some,
        b.job.unique_for is Some,
        a.is_enqueued_by(enqueue_a, now_a),
        b.is_enqueued_by(enqueue_b, now_b),
    ensures
        enqueue_a.next_action() is SetNxEx,
        enqueue_b.next_action() is SetNxEx,
        enqueue_a.next_action()->SetNxEx_key == enqueue_b.next_action()->SetNxEx_key,
{
}

/// Two unique jobs that were enqueued on the same queue for the same class with the same arguments
/// compete for one lock.
pub proof fn law_same_work_asks_for_one_lock(
    enqueue_a: Enqueue,
    enqueue_b: Enqueue,
    opts_a: OptsView,
    opts_b: OptsView,
    class: String,
    args: JsonValue,
)
    requires
        enqueues_new_job(enqueue_a, opts_a, class, args),
        enqueues_new_job(enqueue_b, opts_b, class, args),
        opts_a.queue == opts_b.queue,
        opts_a.unique_for is Some,
        opts_b.unique_for is Some,
    ensures
        enqueue_a.next_action() is SetNxEx,
        enqueue_b.next_action() is SetNxEx,
        enqueue_a.next_action()->SetNxEx_key == enqueue_b.next_action()->SetNxEx_key,
{
}

proof fn lemma_hex_characters(bytes: Seq<u8>)
    ensures
        !hex_lower(bytes).contains(':'),
        !hex_lower(bytes).contains('#'),
{
    assert forall|i: int| 0 <= i < hex_lower(bytes).len() implies hex_lower(bytes)[i] != ':'
        && hex_lower(bytes)[i] != '#' by {
        let byte = bytes[i / 2] as int;
        assert(0 <= byte / 16 < 16 && 0 <= byte % 16 < 16);
    }
}

proof fn lemma_no_colon_in_decimal(n: nat)
    ensures
        !decimal(n).contains(':'),
    decreases n,
{
    if n >= 10 {
        lemma_no_colon_in_decimal(n / 10);
        let rest = decimal(n / 10);
        assert forall|i: int| 0 <= i < decimal(n).len() implies decimal(n)[i] != ':' by {
            if i < rest.len() {
                assert(decimal(n)[i] == rest[i]);
            }
        }
    }
}

/// Two parts joined by the last colon of a text are fixed by the text.
proof fn lemma_last_colon(
    head_a: Seq<char>,
    tail_a: Seq<char>,
    head_b: Seq<char>,
    tail_b: Seq<char>,
)
    requires
        head_a + ":"@ + tail_a == head_b + ":"@ + tail_b,
        !tail_a.contains(':'),
        !tail_b.contains(':'),
    ensures
        head_a == head_b,
        tail_a == tail_b,
{
    reveal_strlit(":");
    let text = head_a + ":"@ + tail_a;
    assert(text.len() == head_a.len() + 1 + tail_a.len());
    assert(text.len() == head_b.len() + 1 + tail_b.len());
    assert(text[head_a.len() as int] == ':');
    assert(text[head_b.len() as int] == ':');
    if head_a.len() < head_b.len() {
        let i = head_b.len() - head_a.len() - 1;
        assert(0 <= i < tail_a.len() && text[head_b.len() as int] == tail_a[i]);
        assert(tail_a.contains(tail_a[i]));
    }
    if head_b.len() < head_a.len() {
        let i = head_a.len() - head_b.len() - 1;
        assert(0 <= i < tail_b.len() && text[head_a.len() as int] == tail_b[i]);
        assert(tail_b.contains(tail_b[i]));
    }
    assert(head_a =~= text.take(head_a.len() as int));
    assert(head_b =~= text.take(head_b.len() as int));
    assert(tail_a =~= text.skip(head_a.len() as int + 1));
    assert(tail_b =~= text.skip(head_b.len() as int + 1));
}

/// Two names joined by a colon are fixed by the text if the first ones are equally long, or if
/// neither of them holds a colon.
proof fn lemma_first_colon(
    queue_a: Seq<char>,
    class_a: Seq<char>,
    queue_b: Seq<char>,
    class_b: Seq<char>,
)
    requires
        queue_a + ":"@ + class_a == queue_b + ":"@ + class_b,
        queue_a.len() == queue_b.len() || !queue_a.contains(':') && !queue_b.contains(':'),
    ensures
        queue_a == queue_b,
        class_a == class_b,
{
    reveal_strlit(":");
    let text = queue_a + ":"@ + class_a;
    assert(text[queue_a.len() as int] == ':');
    assert(text[queue_b.len() as int] == ':');
    if queue_a.len() < queue_b.len() {
        assert(text[queue_a.len() as int] == queue_b[queue_a.len() as int]);
    }
    if queue_b.len() < queue_a.len() {
        assert(text[queue_b.len() as int] == queue_a[queue_b.len() as int]);
    }
    assert(queue_a =~= text.take(queue_a.len() as int));
    assert(queue_b =~= text.take(queue_b.len() as int));
    assert(class_a =~= text.skip(queue_a.len() as int + 1));
    assert(class_b =~= text.skip(queue_b.len() as int + 1));
}

/// Two unique jobs compete for one lock only if their queues are the same, their classes are the
/// same, and their arguments have the same digest.
pub proof fn law_unique_key_tells_jobs_apart(
    queue_a: Seq<char>,
    class_a: Seq<char>,
    args_a: JsonValue,
    queue_b: Seq<char>,
    class_b: Seq<char>,
    args_b: JsonValue,
)
    requires
        unique_key(queue_a, class_a, args_a) == unique_key(queue_b, class_b, args_b),
    ensures
        queue_a == queue_b,
        class_a == class_b,
        sha256(vstd::utf8::encode_utf8(json_text(args_a))) == sha256(
            vstd::utf8::encode_utf8(json_text(args_b)),
        ),
{
    reveal_strlit(":");
    reveal_strlit(":#");
    reveal_strlit("#");
    let digest_a = sha256(vstd::utf8::encode_utf8(json_text(args_a)));
    let digest_b = sha256(vstd::utf8::encode_utf8(json_text(args_b)));
    let hex_a = hex_lower(digest_a);
    let hex_b = hex_lower(digest_b);
    lemma_hex_characters(digest_a);
    lemma_hex_characters(digest_b);
    let names_a = queue_a + ":"@ + class_a;
    let names_b = queue_b + ":"@ + class_b;
    let head_a = "sidekiq:unique:"@ + names_a;
    let head_b = "sidekiq:unique:"@ + names_b;
    let body_a = head_a + ":"@ + hex_a;
    let body_b = head_b + ":"@ + hex_b;
    let count_a = "#"@ + decimal(queue_a.len());
    let count_b = "#"@ + decimal(queue_b.len());
    lemma_no_colon_in_decimal(queue_a.len());
    lemma_no_colon_in_decimal(queue_b.len());
    let key = unique_key(queue_a, class_a, args_a);
    assert(key =~= if queue_a.contains(':') {
        body_a + ":"@ + count_a
    } else {
        body_a
    });
    assert(key =~= if queue_b.contains(':') {
        body_b + ":"@ + count_b
    } else {
        body_b
    });
    if queue_a.contains(':') {
        if queue_b.contains(':') {
            lemma_last_colon(body_a, count_a, body_b, count_b);
            assert(decimal(queue_a.len()) =~= count_a.skip(1));
            assert(decimal(queue_b.len()) =~= count_b.skip(1));
            law_decimal_is_injective(queue_a.len(), queue_b.len());
        } else {
            lemma_last_colon(body_a, count_a, head_b, hex_b);
            assert(hex_b[0] == '#');
        }
    } else if queue_b.contains(':') {
        lemma_last_colon(head_a, hex_a, body_b, count_b);
        assert(hex_a[0] == '#');
    }
    lemma_last_colon(head_a, hex_a, head_b, hex_b);
    law_hex_is_injective(digest_a, digest_b);
    let start = "sidekiq:unique:"@.len() as int;
    assert(names_a =~= head_a.skip(start));
    assert(names_b =~= head_b.skip(start));
    lemma_first_colon(queue_a, class_a, queue_b, class_b);
}

/// Unique jobs that differ in their queue, their class or the digest of their arguments ask for
/// different locks, so that neither blocks the other.
pub proof fn law_different_jobs_take_different_locks(
    a: UnitOfWork,
    b: UnitOfWork,
    enqueue_a: Enqueue,
    enqueue_b: Enqueue,
    now_a: i64,
    now_b: i64,
)
    requires
        a.job.unique_for is Some,
        b.job.unique_for is Some,
        a.is_enqueued_by(enqueue_a, now_a),
        b.is_enqueued_by(enqueue_b, now_b),
        a.job.queue@ != b.job.queue@ || a.job.class@ != b.job.class@ || sha256(
            vstd::utf8::encode_utf8(json_text(a.job.args)),
        ) != sha256(vstd::utf8::encode_utf8(json_text(b.job.args))),
    ensures
        enqueue_a.next_action() is SetNxEx,
        enqueue_b.next_action() is SetNxEx,
        enqueue_a.next_action()->SetNxEx_key != enqueue_b.next_action()->SetNxEx_key,
{
    if enqueue_a.next_action()->SetNxEx_key == enqueue_b.next_action()->SetNxEx_key {
        law_unique_key_tells_jobs_apart(
            a.job.queue@,
            a.job.class@,
            a.job.args,
            b.job.queue@,
            b.job.class@,
            b.job.args,
        );
    }
}

/// What a worker gets of a job that was pushed is what the job was enqueued with, under the class
/// and the queue it was enqueued for. With coercion this holds but for an array of one, which is
/// taken for a single argument; without, for every array.
pub proof fn law_pushed_arguments_are_delivered(
    enqueue: Enqueue,
    opts: OptsView,
    class: String,
    args: JsonValue,
    coercion_disabled: bool,
    delivered: JsonValue,
)
    requires
        enqueues_new_job(enqueue, opts, class, args),
        delivers_args(
            Job::of_payload(enqueue.job.payload()).args,
            coercion_disabled,
            false,
            delivered,
        ),
        coercion_disabled ==> json_array(args) is Some,
        !coercion_disabled && json_array(args) is Some ==> json_array(args)->0.len() != 1,
    ensures
        delivered == args,
        Job::of_payload(enqueue.job.payload()).class == class,
        Job::of_payload(enqueue.job.payload()).queue == opts.queue,
        Job::of_payload(enqueue.job.payload()).retry == opts.retry,
        Job::of_payload(enqueue.job.payload()).retry_queue == opts.retry_queue,
{
}

/// What a worker gets of a job that was scheduled is what the job was scheduled with, under the
/// class and the queue it was scheduled for, with the same exceptions.
pub proof fn law_scheduled_arguments_are_delivered(
    zadd: Zadd,
    opts: OptsView,
    class: String,
    args: JsonValue,
    duration: Duration,
    coercion_disabled: bool,
    delivered: JsonValue,
)
    requires
        schedules_new_job(Placement::At(zadd), opts, class, args, duration),
        delivers_args(Job::of_payload(zadd.payload).args, coercion_disabled, false, delivered),
        coercion_disabled ==> json_array(args) is Some,
        !coercion_disabled && json_array(args) is Some ==> json_array(args)->0.len() != 1,
    ensures
        delivered == args,
        Job::of_payload(zadd.payload).class == class,
        Job::of_payload(zadd.payload).queue == opts.queue,
        Job::of_payload(zadd.payload).retry == opts.retry,
        Job::of_payload(zadd.payload).retry_queue == opts.retry_queue,
{
}

/// A retry is delayed by the fourth power of its number and a quarter of a minute, and by at most
/// 29 seconds more for this and each earlier retry.
pub proof fn law_retry_delay_bounds(count: usize, jitter: usize)
    requires
        jitter < RETRY_JITTER,
    ensures
        retry_delay_secs(count as int, 0) <= retry_delay_secs(count as int, jitter as int),
        retry_delay_secs(count as int, jitter as int) <= retry_delay_secs(count as int, 0) + 29 * (
        count + 1),
{
    assert(0 <= jitter * (count + 1) <= 29 * (count + 1)) by (nonlinear_arith)
        requires
            0 <= jitter <= 29,
            0 <= count,
    ;
}

/// With the same random part, a later retry is delayed longer.
pub proof fn law_retry_delay_grows(earlier: usize, later: usize, jitter: usize)
    requires
        earlier < later,
    ensures
        retry_delay_secs(earlier as int, jitter as int) < retry_delay_secs(
            later as int,
            jitter as int,
        ),
{
    let a: int = earlier as int;
    let b: int = later as int;
    assert(a * a < b * b) by (nonlinear_arith)
        requires
            0 <= a < b,
    ;
    assert(a * a * a < b * b * b) by (nonlinear_arith)
        requires
            0 <= a < b,
            a * a < b * b,
    ;
    assert(a * a * a * a < b * b * b * b) by (nonlinear_arith)
        requires
            0 <= a < b,
            0 <= a * a * a < b * b * b,
    ;
    assert(jitter * (a + 1) <= jitter * (b + 1)) by (nonlinear_arith)
        requires
            0 <= jitter,
            a < b,
    ;
}

/// A scheduled job is due in the second in which its delay ends: at most one second before the
/// delay has passed, and never after.
pub proof fn law_scheduled_second_contains_the_end(duration: Duration, now: UtcTime)
    ensures
        ({
            let end = now.since_epoch() + duration_secs(duration) * 1_000_000_000 + duration_nanos(
                duration,
            );
            let second = scheduled_second(duration, now);
            second * 1_000_000_000 <= end < (second + 1) * 1_000_000_000
        }),
{
}

/// The delay of a retry is the fourth power of its number, a quarter of a minute, and its random
/// part once for this and once for each earlier retry.
pub proof fn law_retry_delay_is_the_formula(count: usize, jitter: usize, delay: Option<u64>)
    requires
        jitter < RETRY_JITTER,
        call_ensures(retry_delay, (count, jitter), delay),
    ensures
        match delay {
            Some(secs) => secs == count * count * count * count + 15 + jitter * (count + 1),
            None => count * count * count * count + 15 + jitter * (count + 1) > u64::MAX,
        },
{
}

/// A retry is due its whole delay after it is scheduled: the fourth power of its number, a quarter
/// of a minute, and its random part once for this and once for each earlier retry.
pub proof fn law_retry_is_due_after_its_delay(count: usize, jitter: usize, now: UtcTime, due: i64)
    requires
        call_ensures(UnitOfWork::retry_job_at, (count, jitter, &now), due),
    ensures
        due - now.secs == count * count * count * count + 15 + jitter * (count + 1),
{
}

/// For the same time and random part, a later retry is due strictly later.
pub proof fn law_later_retry_is_due_later(
    earlier: usize,
    later: usize,
    jitter: usize,
    now: UtcTime,
    due_earlier: i64,
    due_later: i64,
)
    requires
        earlier < later,
        call_ensures(UnitOfWork::retry_job_at, (earlier, jitter, &now), due_earlier),
        call_ensures(UnitOfWork::retry_job_at, (later, jitter, &now), due_later),
    ensures
        due_earlier < due_later,
{
    law_retry_delay_grows(earlier, later, jitter);
}

/// A job that counts its retries is placed in the set `retry` at the second in which its delay
/// ends, with its payload, unless UTC has no such date; one that counts none is not placed.
pub proof fn law_retry_is_placed_after_its_delay(
    unit: UnitOfWork,
    jitter: usize,
    now: UtcTime,
    placement: Option<Placement>,
)
    requires
        call_ensures(UnitOfWork::retry_placement, (&unit, jitter, &now), placement),
    ensures
        match unit.job.retry_count {
            Some(count) => {
                let due = now.secs + count * count * count * count + 15 + jitter * (count + 1);
                match placement {
                    Some(Placement::At(zadd)) => {
                        &&& zadd.key@ == "retry"@
                        &&& zadd.payload == unit.job.payload()
                        &&& zadd.score == due
                        &&& zadd.event == JobEvent::RetryScheduled(zadd.score)
                        &&& due <= MAX_UTC_SECS
                    },
                    Some(Placement::BeyondCalendar) => due > MAX_UTC_SECS,
                    None => false,
                }
            },
            None => placement is None,
        },
{
}

/// The same of the command alone.
pub proof fn law_retry_command_is_due_after_its_delay(
    unit: UnitOfWork,
    jitter: usize,
    now: UtcTime,
    command: Option<Zadd>,
)
    requires
        call_ensures(UnitOfWork::reenqueue_at, (&unit, jitter, &now), command),
    ensures
        match unit.job.retry_count {
            Some(count) => {
                &&& command matches Some(zadd)
                &&& zadd.key@ == "retry"@
                &&& zadd.payload == unit.job.payload()
                &&& zadd.score == now.secs + count * count * count * count + 15 + jitter * (count
                    + 1)
                &&& zadd.event == JobEvent::RetryScheduled(zadd.score)
            },
            None => command is None,
        },
{
}

/// A job that is scheduled for retry now is placed by what the clock showed and what was drawn.
pub proof fn law_retry_is_placed_by_the_clock(
    unit: UnitOfWork,
    count: usize,
    placement: Option<Placement>,
) -> (reading: (UtcTime, usize))
    requires
        unit.job.retry_count == Some(count),
        call_ensures(UnitOfWork::reenqueue, (&unit,), placement),
    ensures
        is_clock_reading(reading.0),
        is_draw_below(30, reading.1),
        reading.1 < 30,
        ({
            let due = reading.0.secs + count * count * count * count + 15 + reading.1 * (count + 1);
            match placement {
                Some(Placement::At(zadd)) => {
                    &&& zadd.key@ == "retry"@
                    &&& zadd.payload == unit.job.payload()
                    &&& zadd.score == due
                    &&& zadd.event == JobEvent::RetryScheduled(zadd.score)
                    &&& due <= MAX_UTC_SECS
                },
                Some(Placement::BeyondCalendar) => due > MAX_UTC_SECS,
                None => false,
            }
        }),
{
    let (jitter, now) = choose|jitter: usize, now: UtcTime|
        {
            &&& jitter < RETRY_JITTER
            &&& is_draw_below(RETRY_JITTER, jitter)
            &&& now.is_valid()
            &&& is_clock_reading(now)
            &&& #[trigger] placement->0.retries(unit.job, count, jitter, now)
        };
    (now, jitter)
}

/// A job that counts no retries is never scheduled for retry.
pub proof fn law_uncounted_job_is_not_retried(unit: UnitOfWork, placement: Option<Placement>)
    requires
        unit.job.retry_count is None,
        call_ensures(UnitOfWork::reenqueue, (&unit,), placement),
    ensures
        placement is None,
{
}

/// A job that is scheduled is placed in the set `schedule`, with its payload, at the second that
/// lies its delay after `now`: that second has begun when the delay ends, and the next has not. If
/// UTC has no such date it is not placed, and a duration that is no delay is an error.
pub proof fn law_job_is_scheduled_after_its_delay(
    unit: UnitOfWork,
    duration: Duration,
    now: UtcTime,
    placement: Result<Placement, Error>,
)
    requires
        call_ensures(UnitOfWork::schedule_placement, (&unit, duration, &now), placement),
    ensures
        placement is Ok <==> is_delay(duration),
        ({
            let end = (now.secs + duration_secs(duration)) * 1_000_000_000 + now.nanos
                + duration_nanos(duration);
            match placement {
                Ok(Placement::At(zadd)) => {
                    &&& zadd.key@ == "schedule"@
                    &&& zadd.payload == unit.job.payload()
                    &&& zadd.score * 1_000_000_000 <= end < (zadd.score + 1) * 1_000_000_000
                    &&& zadd.event == JobEvent::Scheduled(zadd.score)
                    &&& zadd.score <= MAX_UTC_SECS
                },
                Ok(Placement::BeyondCalendar) => end >= (MAX_UTC_SECS + 1) * 1_000_000_000,
                Err(_) => true,
            }
        }),
{
}

/// The same of the command alone.
pub proof fn law_schedule_command_is_due_after_its_delay(
    unit: UnitOfWork,
    duration: Duration,
    now: UtcTime,
    command: Result<Zadd, Error>,
)
    requires
        call_ensures(UnitOfWork::schedule_at, (&unit, duration, &now), command),
    ensures
        command is Ok <==> is_delay(duration),
        command matches Ok(zadd) ==> {
            let end = (now.secs + duration_secs(duration)) * 1_000_000_000 + now.nanos
                + duration_nanos(duration);
            &&& zadd.key@ == "schedule"@
            &&& zadd.payload == unit.job.payload()
            &&& zadd.score * 1_000_000_000 <= end < (zadd.score + 1) * 1_000_000_000
            &&& zadd.event == JobEvent::Scheduled(zadd.score)
        },
{
}

/// A job that is scheduled now is due its delay after the time that the clock showed, and so not
/// before that time.
pub proof fn law_job_is_scheduled_by_the_clock(
    unit: UnitOfWork,
    duration: Duration,
    placement: Placement,
) -> (now: UtcTime)
    requires
        call_ensures(
            UnitOfWork::schedule,
            (&unit, duration),
            Ok::<Placement, Error>(placement),
        ),
    ensures
        is_delay(duration),
        is_clock_reading(now),
        ({
            let end = (now.secs + duration_secs(duration)) * 1_000_000_000 + now.nanos
                + duration_nanos(duration);
            match placement {
                Placement::At(zadd) => {
                    &&& zadd.key@ == "schedule"@
                    &&& zadd.payload == unit.job.payload()
                    &&& zadd.score * 1_000_000_000 <= end < (zadd.score + 1) * 1_000_000_000
                    &&& zadd.score >= now.secs + duration_secs(duration)
                    &&& zadd.event == JobEvent::Scheduled(zadd.score)
                    &&& zadd.score <= MAX_UTC_SECS
                },
                Placement::BeyondCalendar => end >= (MAX_UTC_SECS + 1) * 1_000_000_000,
            }
        }),
{
    choose|now: UtcTime|
        now.is_valid() && is_clock_reading(now) && #[trigger] placement.schedules(
            unit.job,
            duration,
            now,
        )
}

/// Scheduling fails exactly for what is no delay.
pub proof fn law_only_delays_are_scheduled(
    unit: UnitOfWork,
    duration: Duration,
    placement: Result<Placement, Error>,
)
    requires
        call_ensures(UnitOfWork::schedule, (&unit, duration), placement),
    ensures
        placement is Ok <==> is_delay(duration),
{
}

/// The key of a lock begins with the queue and the class, goes on with the digest of the arguments,
/// and ends there unless a colon occurs in the name of the queue; then the length of the name
/// follows.
pub proof fn law_lock_key_spells_the_job(
    queue: &str,
    class: &str,
    args: JsonValue,
    key: String,
    length: String,
    i: int,
)
    requires
        call_ensures(unique_lock_key, (queue, class, &args), key),
        queue@.len() <= u64::MAX,
        call_ensures(decimal_text, (queue@.len() as u64,), length),
        0 <= i < sha256(vstd::utf8::encode_utf8(json_text(args))).len(),
    ensures
        ({
            let head = "sidekiq:unique:"@ + queue@ + ":"@ + class@ + ":"@;
            let digest = sha256(vstd::utf8::encode_utf8(json_text(args)));
            let start = head.len() as int;
            let end = start + 2 * digest.len();
            let high = digest[i] as int / 16;
            let low = digest[i] as int % 16;
            &&& key@.take(start) == head
            &&& key@[start + 2 * i] as int == if high < 10 {
                '0' as int + high
            } else {
                'a' as int + high - 10
            }
            &&& key@[start + 2 * i + 1] as int == if low < 10 {
                '0' as int + low
            } else {
                'a' as int + low - 10
            }
            &&& key@.skip(end) == if queue@.contains(':') {
                ":#"@ + length@
            } else {
                Seq::empty()
            }
        }),
{
    let head = "sidekiq:unique:"@ + queue@ + ":"@ + class@ + ":"@;
    let digest = sha256(vstd::utf8::encode_utf8(json_text(args)));
    let start = head.len() as int;
    assert(key@ =~= head + hex_lower(digest) + queue_mark(queue@));
    assert(key@.take(start) =~= head);
    assert(key@.skip(start + 2 * digest.len()) =~= queue_mark(queue@));
    assert(key@[start + 2 * i] == hex_lower(digest)[2 * i]);
    assert(key@[start + 2 * i + 1] == hex_lower(digest)[2 * i + 1]);
    assert((2 * i) % 2 == 0 && (2 * i) / 2 == i);
    assert((2 * i + 1) % 2 == 1 && (2 * i + 1) / 2 == i);
}

/// A unit of work files its job under the key of the job's queue.
pub proof fn law_unit_of_work_knows_its_queue(job: Job, unit: UnitOfWork)
    requires
        call_ensures(UnitOfWork::from_job, (job,), unit),
    ensures
        unit.job == job,
        unit.queue@ == "queue:"@ + job.queue@,
{
}

/// A job that is pushed keeps every field but the time at which it was enqueued, and goes to the
/// key of its unit.
pub proof fn law_pushing_keeps_the_job(unit: UnitOfWork, now: i64, enqueue: Enqueue)
    requires
        call_ensures(UnitOfWork::enqueue_direct, (&unit, now), enqueue),
    ensures
        enqueue.queue_key == unit.queue,
        enqueue.job.enqueued_at == Some(Timestamp::Seconds(now)),
        enqueue.job.queue == unit.job.queue,
        enqueue.job.args == unit.job.args,
        enqueue.job.retry == unit.job.retry,
        enqueue.job.class == unit.job.class,
        enqueue.job.jid == unit.job.jid,
        enqueue.job.created_at == unit.job.created_at,
        enqueue.job.failed_at == unit.job.failed_at,
        enqueue.job.error_message == unit.job.error_message,
        enqueue.job.error_class == unit.job.error_class,
        enqueue.job.retry_count == unit.job.retry_count,
        enqueue.job.retried_at == unit.job.retried_at,
        enqueue.job.retry_queue == unit.job.retry_queue,
        enqueue.job.unique_for == unit.job.unique_for,
{
}

/// A unique job first takes the lock of its queue, class and arguments, which expires after the
/// whole seconds of its duration; any other job first makes its queue known.
pub proof fn law_only_unique_jobs_take_a_lock(
    unit: UnitOfWork,
    now: i64,
    enqueue: Enqueue,
    queue: &str,
    class: &str,
    key: String,
    action: EnqueueAction,
)
    requires
        call_ensures(UnitOfWork::enqueue_direct, (&unit, now), enqueue),
        queue@ == unit.job.queue@,
        class@ == unit.job.class@,
        call_ensures(unique_lock_key, (queue, class, &unit.job.args), key),
        call_ensures(Enqueue::action, (&enqueue,), action),
    ensures
        match unit.job.unique_for {
            Some(duration) => {
                &&& action is SetNxEx
                &&& action->SetNxEx_key@ == key@
                &&& action->SetNxEx_value@.len() == 0
                &&& action->SetNxEx_ttl_secs == duration_secs(duration) as usize
            },
            None => {
                &&& action is Sadd
                &&& action->Sadd_key@ == "queues"@
                &&& action->Sadd_member@ == unit.job.queue@
            },
        },
{
}

/// A job that is enqueued now carries the time that the clock showed.
pub proof fn law_job_is_enqueued_by_the_clock(unit: UnitOfWork, enqueue: Enqueue) -> (now: UtcTime)
    requires
        call_ensures(UnitOfWork::enqueue, (&unit,), enqueue),
    ensures
        is_clock_reading(now),
        enqueue.job == (Job { enqueued_at: Some(Timestamp::Seconds(now.secs)), ..unit.job }),
        enqueue.queue_key == unit.queue,
        enqueue.stage is Lock <==> unit.job.unique_for is Some,
        enqueue.stage is Register <==> unit.job.unique_for is None,
{
    let secs = choose|secs: i64|
        0 <= secs <= MAX_UTC_SECS && is_clock_second(secs) && #[trigger] unit.is_enqueued_by(
            enqueue,
            secs,
        );
    choose|now: UtcTime| #[trigger] is_clock_reading(now) && now.secs == secs
}

/// What is asked of Redis is the lock, then the queue, then the payload of the job, each command
/// with its own key.
pub proof fn law_each_stage_has_its_command(enqueue: Enqueue, action: EnqueueAction)
    requires
        call_ensures(Enqueue::action, (&enqueue,), action),
    ensures
        match enqueue.stage {
            EnqueueStage::Lock { key, ttl_secs } => {
                &&& action is SetNxEx
                &&& action->SetNxEx_key@ == key@
                &&& action->SetNxEx_value@.len() == 0
                &&& action->SetNxEx_ttl_secs == ttl_secs
            },
            EnqueueStage::Register => {
                &&& action is Sadd
                &&& action->Sadd_key@ == "queues"@
                &&& action->Sadd_member@ == enqueue.job.queue@
            },
            EnqueueStage::Push => {
                &&& action is Lpush
                &&& action->Lpush_key@ == enqueue.queue_key@
                &&& action->Lpush_payload == enqueue.job.payload()
            },
            EnqueueStage::Finished(outcome) => action == EnqueueAction::Done(outcome),
        },
{
}

/// The payload that is pushed is the one that the job is turned into.
pub proof fn law_pushed_payload_is_the_jobs(
    enqueue: Enqueue,
    action: EnqueueAction,
    payload: JobPayload,
)
    requires
        enqueue.stage is Push,
        call_ensures(Enqueue::action, (&enqueue,), action),
        call_ensures(Job::to_payload, (&enqueue.job,), payload),
    ensures
        action is Lpush,
        action->Lpush_payload == payload,
{
}

/// A lock that is taken ends the pushing as a duplicate; otherwise the queue is made known, then the
/// payload is pushed, and then the job is queued. The job and its key do not change.
pub proof fn law_answers_lead_to_the_next_stage(enqueue: Enqueue, reply: Reply, next: Enqueue)
    requires
        call_ensures(Enqueue::resume, (enqueue, reply), next),
    ensures
        next.job == enqueue.job,
        next.queue_key == enqueue.queue_key,
        match enqueue.stage {
            EnqueueStage::Lock { key, ttl_secs } => next.stage == match reply {
                Reply::Nil => EnqueueStage::Finished(EnqueueOutcome::Duplicate),
                Reply::Value => EnqueueStage::Register,
            },
            EnqueueStage::Register => next.stage is Push,
            EnqueueStage::Push => next.stage == EnqueueStage::Finished(EnqueueOutcome::Queued),
            EnqueueStage::Finished(outcome) => next.stage == enqueue.stage,
        },
{
}

/// An answer is followed up alike whether or not it may be an error, and an error is handed on.
pub proof fn law_errors_are_handed_on<E>(
    enqueue: Enqueue,
    answer: Result<Reply, E>,
    followed: Result<Enqueue, E>,
)
    requires
        call_ensures(Enqueue::follow::<E>, (enqueue, answer), followed),
    ensures
        answer matches Err(error) ==> followed == Err::<Enqueue, E>(error),
        answer matches Ok(reply) ==> followed is Ok && forall|next: Enqueue| #[trigger]
            call_ensures(Enqueue::resume, (enqueue, reply), next) ==> followed->Ok_0 == next,
{
}

/// Pushing is traced at its end alone: as enqueued unless tracing is off, or as a duplicate with
/// verbose tracing.
pub proof fn law_end_of_pushing_is_traced(
    enqueue: Enqueue,
    config: TracingConfig,
    trace: Option<TraceEvent>,
)
    requires
        call_ensures(Enqueue::trace, (&enqueue, &config), trace),
    ensures
        match enqueue.stage {
            EnqueueStage::Finished(EnqueueOutcome::Queued) => {
                &&& trace is Some <==> config.verbosity != TracingVerbosity::Off
                &&& trace matches Some(event) ==> {
                    &&& event.name@ == "job.enqueued"@
                    &&& event.status@ == "queued"@
                    &&& event.level == TraceLevel::Info
                    &&& event.jid == enqueue.job.jid
                    &&& event.class == enqueue.job.class
                    &&& event.queue == enqueue.job.queue
                }
            },
            EnqueueStage::Finished(EnqueueOutcome::Duplicate) => {
                &&& trace is Some <==> config.verbosity == TracingVerbosity::Verbose
                &&& trace matches Some(event) ==> {
                    &&& event.name@ == "job.deduplicated"@
                    &&& event.status@ == "duplicate"@
                    &&& event.level == TraceLevel::Debug
                    &&& event.jid == enqueue.job.jid
                    &&& event.class == enqueue.job.class
                    &&& event.queue == enqueue.job.queue
                }
            },
            _ => trace is None,
        },
{
}

/// A job that is enqueued with options says what they say, keeps its class and arguments, goes to
/// the key of its queue, and carries the times that the clock showed when it was created and when
/// it was enqueued.
pub proof fn law_work_is_enqueued_as_given(
    given: EnqueueOpts,
    class: String,
    args: JsonValue,
    enqueue: Enqueue,
) -> (readings: (UtcTime, UtcTime))
    requires
        call_ensures(EnqueueOpts::perform_async, (given, class, args), enqueue),
    ensures
        is_clock_reading(readings.0),
        is_clock_reading(readings.1),
        enqueue.job.created_at == Timestamp::Seconds(readings.0.secs),
        enqueue.job.enqueued_at == Some(Timestamp::Seconds(readings.1.secs)),
        is_drawn_nonce(enqueue.job.jid@),
        enqueue.job.queue == given@.queue,
        enqueue.job.retry == given@.retry,
        enqueue.job.unique_for == given@.unique_for,
        enqueue.job.retry_queue == given@.retry_queue,
        enqueue.job.class == class,
        json_array(args) is Some ==> enqueue.job.args == args,
        json_array(args) is None ==> enqueue.job.args == json_array_value(seq![args]),
        enqueue.job.failed_at is None,
        enqueue.job.error_message is None,
        enqueue.job.error_class is None,
        enqueue.job.retry_count is None,
        enqueue.job.retried_at is None,
        enqueue.queue_key@ == "queue:"@ + given@.queue@,
        enqueue.stage is Lock <==> given@.unique_for is Some,
        enqueue.stage is Register <==> given@.unique_for is None,
{
    lemma_new_job_is_enqueued(enqueue, given@, class, args)
}

/// A job that is enqueued by class name goes to the given queue with default options.
pub proof fn law_work_is_enqueued_by_class_name(
    class: String,
    queue: String,
    args: JsonValue,
    enqueue: Enqueue,
) -> (readings: (UtcTime, UtcTime))
    requires
        call_ensures(perform_async, (class, queue, args), enqueue),
    ensures
        is_clock_reading(readings.0),
        is_clock_reading(readings.1),
        enqueue.job.created_at == Timestamp::Seconds(readings.0.secs),
        enqueue.job.enqueued_at == Some(Timestamp::Seconds(readings.1.secs)),
        is_drawn_nonce(enqueue.job.jid@),
        enqueue.job.queue == queue,
        enqueue.job.retry == RetryOpts::Yes,
        enqueue.job.unique_for is None,
        enqueue.job.retry_queue is None,
        enqueue.job.class == class,
        json_array(args) is Some ==> enqueue.job.args == args,
        json_array(args) is None ==> enqueue.job.args == json_array_value(seq![args]),
        enqueue.job.failed_at is None,
        enqueue.job.error_message is None,
        enqueue.job.error_class is None,
        enqueue.job.retry_count is None,
        enqueue.job.retried_at is None,
        enqueue.queue_key@ == "queue:"@ + queue@,
        enqueue.stage is Register,
{
    let given = choose|given: OptsView|
        is_default_opts_on(given, queue) && #[trigger] enqueues_new_job(
            enqueue,
            given,
            class,
            args,
        );
    lemma_new_job_is_enqueued(enqueue, given, class, args)
}

proof fn lemma_new_job_is_enqueued(
    enqueue: Enqueue,
    given: OptsView,
    class: String,
    args: JsonValue,
) -> (readings: (UtcTime, UtcTime))
    requires
        enqueues_new_job(enqueue, given, class, args),
    ensures
        is_clock_reading(readings.0),
        is_clock_reading(readings.1),
        enqueue.job.created_at == Timestamp::Seconds(readings.0.secs),
        enqueue.job.enqueued_at == Some(Timestamp::Seconds(readings.1.secs)),
        is_drawn_nonce(enqueue.job.jid@),
        enqueue.job.queue == given.queue,
        enqueue.job.retry == given.retry,
        enqueue.job.unique_for == given.unique_for,
        enqueue.job.retry_queue == given.retry_queue,
        enqueue.job.class == class,
        json_array(args) is Some ==> enqueue.job.args == args,
        json_array(args) is None ==> enqueue.job.args == json_array_value(seq![args]),
        enqueue.job.failed_at is None,
        enqueue.job.error_message is None,
        enqueue.job.error_class is None,
        enqueue.job.retry_count is None,
        enqueue.job.retried_at is None,
        enqueue.queue_key@ == "queue:"@ + given.queue@,
        enqueue.stage is Lock <==> given.unique_for is Some,
        enqueue.stage is Register <==> given.unique_for is None,
{
    let (unit, secs) = choose|unit: UnitOfWork, secs: i64|
        {
            &&& is_fresh_job(unit.job, given, class, args)
            &&& unit.queue@ == "queue:"@ + unit.job.queue@
            &&& 0 <= secs <= MAX_UTC_SECS
            &&& is_clock_second(secs)
            &&& #[trigger] unit.is_enqueued_by(enqueue, secs)
        };
    let created = choose|time: UtcTime| #[trigger]
        is_clock_reading(time) && time.secs == unit.job.created_at->Seconds_0;
    let enqueued = choose|time: UtcTime| #[trigger] is_clock_reading(time) && time.secs == secs;
    (created, enqueued)
}

/// A job that is scheduled with options says what they say, keeps its class and arguments, and is
/// due its delay after the time that the clock showed.
pub proof fn law_work_is_scheduled_as_given(
    given: EnqueueOpts,
    class: String,
    duration: Duration,
    args: JsonValue,
    zadd: Zadd,
) -> (now: UtcTime)
    requires
        call_ensures(
            EnqueueOpts::perform_in,
            (&given, class, duration, args),
            Ok::<Placement, Error>(Placement::At(zadd)),
        ),
    ensures
        is_clock_reading(now),
        is_delay(duration),
        ({
            let end = (now.secs + duration_secs(duration)) * 1_000_000_000 + now.nanos
                + duration_nanos(duration);
            zadd.score * 1_000_000_000 <= end < (zadd.score + 1) * 1_000_000_000
        }),
        zadd.score >= now.secs + duration_secs(duration),
        zadd.key@ == "schedule"@,
        zadd.event == JobEvent::Scheduled(zadd.score),
        zadd.payload.queue == given@.queue,
        zadd.payload.retry_queue == given@.retry_queue,
        zadd.payload.class == class,
        is_drawn_nonce(zadd.payload.jid@),
        json_array(args) is Some ==> zadd.payload.args == args,
        json_array(args) is None ==> zadd.payload.args == json_array_value(seq![args]),
        zadd.payload.enqueued_at is None,
        zadd.payload.failed_at is None,
        zadd.payload.error_message is None,
        zadd.payload.error_class is None,
        zadd.payload.retry_count is None,
        zadd.payload.retried_at is None,
        RetryOpts::of_field(zadd.payload.retry) == given@.retry,
{
    lemma_new_job_is_scheduled(zadd, given@, class, args, duration)
}

/// A job that is scheduled by class name goes to the given queue with default options.
pub proof fn law_work_is_scheduled_by_class_name(
    duration: Duration,
    class: String,
    queue: String,
    args: JsonValue,
    zadd: Zadd,
) -> (now: UtcTime)
    requires
        call_ensures(
            perform_in,
            (duration, class, queue, args),
            Ok::<Placement, Error>(Placement::At(zadd)),
        ),
    ensures
        is_clock_reading(now),
        is_delay(duration),
        ({
            let end = (now.secs + duration_secs(duration)) * 1_000_000_000 + now.nanos
                + duration_nanos(duration);
            zadd.score * 1_000_000_000 <= end < (zadd.score + 1) * 1_000_000_000
        }),
        zadd.score >= now.secs + duration_secs(duration),
        zadd.key@ == "schedule"@,
        zadd.event == JobEvent::Scheduled(zadd.score),
        zadd.payload.queue == queue,
        zadd.payload.retry_queue is None,
        zadd.payload.class == class,
        is_drawn_nonce(zadd.payload.jid@),
        json_array(args) is Some ==> zadd.payload.args == args,
        json_array(args) is None ==> zadd.payload.args == json_array_value(seq![args]),
        zadd.payload.enqueued_at is None,
        zadd.payload.failed_at is None,
        zadd.payload.error_message is None,
        zadd.payload.error_class is None,
        zadd.payload.retry_count is None,
        zadd.payload.retried_at is None,
        zadd.payload.retry == RetryField::Flag(true),
{
    let given = choose|given: OptsView|
        is_default_opts_on(given, queue) && #[trigger] schedules_new_job(
            Placement::At(zadd),
            given,
            class,
            args,
            duration,
        );
    lemma_new_job_is_scheduled(zadd, given, class, args, duration)
}

proof fn lemma_new_job_is_scheduled(
    zadd: Zadd,
    given: OptsView,
    class: String,
    args: JsonValue,
    duration: Duration,
) -> (now: UtcTime)
    requires
        schedules_new_job(Placement::At(zadd), given, class, args, duration),
    ensures
        is_clock_reading(now),
        ({
            let end = (now.secs + duration_secs(duration)) * 1_000_000_000 + now.nanos
                + duration_nanos(duration);
            zadd.score * 1_000_000_000 <= end < (zadd.score + 1) * 1_000_000_000
        }),
        zadd.score >= now.secs + duration_secs(duration),
        zadd.key@ == "schedule"@,
        zadd.event == JobEvent::Scheduled(zadd.score),
        zadd.payload.queue == given.queue,
        zadd.payload.retry == given.retry.field(),
        zadd.payload.retry_queue == given.retry_queue,
        zadd.payload.class == class,
        is_drawn_nonce(zadd.payload.jid@),
        json_array(args) is Some ==> zadd.payload.args == args,
        json_array(args) is None ==> zadd.payload.args == json_array_value(seq![args]),
        zadd.payload.enqueued_at is None,
        zadd.payload.failed_at is None,
        zadd.payload.error_message is None,
        zadd.payload.error_class is None,
        zadd.payload.retry_count is None,
        zadd.payload.retried_at is None,
{
    let (job, now) = choose|job: Job, now: UtcTime|
        {
            &&& is_fresh_job(job, given, class, args)
            &&& now.is_valid()
            &&& is_clock_reading(now)
            &&& #[trigger] Placement::At(zadd).schedules(job, duration, now)
        };
    now
}

} // verus!
