use serde_json::Value;
use sidekiq::opts::opts;
use sidekiq::{EnqueueOpts, Job, RetryField, RetryOpts, Timestamp, Worker, WorkerOpts};
use std::time::Duration;

struct AnyWorker;

impl Worker<()> for AnyWorker {}

fn job_of(opts: &EnqueueOpts) -> Job {
    opts.create_job_at("Class".to_string(), Value::from(1), "jid".to_string(), 1_647_119_929)
}

#[test]
fn default_options_create_a_plain_job() {
    let job = job_of(&opts());
    assert_eq!(job.queue, "default");
    assert_eq!(job.class, "Class");
    assert_eq!(job.jid, "jid");
    assert_eq!(job.created_at, Timestamp::Seconds(1_647_119_929));
    assert_eq!(job.retry, RetryOpts::Yes);
    assert_eq!(job.args, Value::Array(vec![Value::from(1)]));
    assert_eq!(job.enqueued_at, None);
    assert_eq!(job.failed_at, None);
    assert_eq!(job.error_message, None);
    assert_eq!(job.error_class, None);
    assert_eq!(job.retry_count, None);
    assert_eq!(job.retried_at, None);
    assert_eq!(job.retry_queue, None);
    assert_eq!(job.unique_for, None);
}

#[test]
fn every_option_ends_up_in_the_job() {
    let ttl = Duration::new(90, 5);
    let job = job_of(
        &opts()
            .queue("brolo")
            .retry(7)
            .unique_for(ttl)
            .retry_queue("later".to_string()),
    );
    assert_eq!(job.queue, "brolo");
    assert_eq!(job.retry, RetryOpts::Max(7));
    assert_eq!(job.unique_for, Some(ttl));
    assert_eq!(job.retry_queue.as_deref(), Some("later"));
}

#[test]
fn the_last_override_wins_and_leaves_the_rest() {
    let job = job_of(&opts().retry(false).queue("a").queue("b".to_string()));
    assert_eq!(job.queue, "b");
    assert_eq!(job.retry, RetryOpts::Never);
}

#[test]
fn worker_options_turn_into_enqueue_options() {
    let opts: WorkerOpts<(), AnyWorker> = WorkerOpts::default()
        .queue("yolo")
        .retry(true)
        .retry_queue("later")
        .unique_for(Duration::from_secs(1));
    for converted in [opts.into_opts(), EnqueueOpts::from(&opts)] {
        let job = job_of(&converted);
        assert_eq!(job.queue, "yolo");
        assert_eq!(job.retry, RetryOpts::Yes);
        assert_eq!(job.retry_queue.as_deref(), Some("later"));
        assert_eq!(job.unique_for, Some(Duration::from_secs(1)));
    }
}

#[test]
fn new_jobs_get_random_identifiers_and_the_time() {
    let a = opts().create_job("Class".to_string(), Value::Null);
    let b = opts().create_job("Class".to_string(), Value::Null);
    assert_eq!(a.jid.len(), 24);
    assert!(a
        .jid
        .chars()
        .all(|c| c.is_ascii_digit() || ('a'..='f').contains(&c)));
    assert_ne!(a.jid, b.jid);
    match a.created_at {
        Timestamp::Seconds(secs) => assert!(secs > 1_600_000_000),
        other => panic!("{other:?}"),
    }
}

#[test]
fn retry_policies_have_payload_fields() {
    assert_eq!(RetryOpts::Yes.serialize(), RetryField::Flag(true));
    assert_eq!(RetryOpts::Never.serialize(), RetryField::Flag(false));
    assert_eq!(RetryOpts::Max(42).serialize(), RetryField::Count(42));
    assert_eq!(RetryOpts::deserialize(RetryField::Null), RetryOpts::Never);
}

#[test]
fn retry_policies_survive_their_payload_field() {
    for retry in [
        RetryOpts::Yes,
        RetryOpts::Never,
        RetryOpts::Max(0),
        RetryOpts::Max(usize::MAX),
    ] {
        assert_eq!(RetryOpts::deserialize(retry.serialize()), retry);
    }
}

#[test]
fn retry_policies_come_from_booleans_and_numbers() {
    assert_eq!(RetryOpts::from(true), RetryOpts::Yes);
    assert_eq!(RetryOpts::from(false), RetryOpts::Never);
    assert_eq!(RetryOpts::from(25), RetryOpts::Max(25));
}

#[test]
fn a_job_survives_its_payload_but_for_its_uniqueness() {
    let mut job = job_of(&opts().queue("q").retry(3).unique_for(Duration::from_secs(9)));
    job.enqueued_at = Some(Timestamp::Double(1_647_119_929.378998f64.to_bits()));
    job.failed_at = Some(Timestamp::Seconds(1));
    job.error_message = Some("message".to_string());
    job.error_class = Some("class".to_string());
    job.retry_count = Some(2);
    job.retried_at = Some(Timestamp::Seconds(2));
    job.retry_queue = Some("retries".to_string());
    let back = Job::from_payload(job.to_payload());
    let clone = job.clone();
    assert_eq!(clone.unique_for, Some(Duration::from_secs(9)));
    assert_eq!(back.unique_for, None);
    assert_eq!(back.queue, job.queue);
    assert_eq!(back.args, job.args);
    assert_eq!(back.retry, job.retry);
    assert_eq!(back.class, job.class);
    assert_eq!(back.jid, job.jid);
    assert_eq!(back.created_at, job.created_at);
    assert_eq!(back.enqueued_at, job.enqueued_at);
    assert_eq!(back.failed_at, job.failed_at);
    assert_eq!(back.error_message, job.error_message);
    assert_eq!(back.error_class, job.error_class);
    assert_eq!(back.retry_count, job.retry_count);
    assert_eq!(back.retried_at, job.retried_at);
    assert_eq!(back.retry_queue, job.retry_queue);
}
