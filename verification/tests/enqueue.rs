use serde_json::Value;
use sidekiq::json::coerce_args;
use sidekiq::unit_of_work::unique_lock_key;
use sidekiq::{
    opts, perform_async, Enqueue, EnqueueAction, EnqueueOutcome, Job, Namespace, Reply, RetryField,
    Timestamp, TracingConfig, TracingVerbosity, UnitOfWork,
};
use std::time::Duration;

const NOW: i64 = 1_647_119_930;

fn job(unique_for: Option<Duration>) -> Job {
    let mut job = opts().queue("yolo").create_job_at(
        "YoloWorker".to_string(),
        Value::from("USR-123"),
        "f33f7063c6d7a4db0869289a".to_string(),
        1_647_119_929,
    );
    job.unique_for = unique_for;
    job
}

/// Runs `enqueue` to its end with `replies`, and returns what it asked for.
fn run(mut enqueue: Enqueue, replies: &[Reply]) -> (Vec<String>, EnqueueOutcome) {
    let mut commands = Vec::new();
    for reply in replies {
        match enqueue.action() {
            EnqueueAction::SetNxEx {
                key,
                value,
                ttl_secs,
            } => commands.push(format!("SET {key} '{value}' NX EX {ttl_secs}")),
            EnqueueAction::Sadd { key, member } => commands.push(format!("SADD {key} {member}")),
            EnqueueAction::Lpush { key, payload } => {
                assert_eq!(payload.enqueued_at, Some(Timestamp::Seconds(NOW)));
                commands.push(format!("LPUSH {key} {} {}", payload.class, payload.jid));
            }
            EnqueueAction::Done(outcome) => return (commands, outcome),
        }
        enqueue = enqueue.resume(*reply);
    }
    match enqueue.action() {
        EnqueueAction::Done(outcome) => (commands, outcome),
        other => panic!("{other:?}"),
    }
}

#[test]
fn a_unit_of_work_knows_the_key_of_its_queue() {
    let unit = UnitOfWork::from_job(job(None));
    assert_eq!(unit.queue, "queue:yolo");
    assert_eq!(unit.job.queue, "yolo");
}

#[test]
fn a_plain_job_is_registered_and_pushed() {
    let enqueue = UnitOfWork::from_job(job(None)).enqueue_direct(NOW);
    let (commands, outcome) = run(enqueue, &[Reply::Value, Reply::Nil]);
    assert_eq!(
        commands,
        vec![
            "SADD queues yolo".to_string(),
            "LPUSH queue:yolo YoloWorker f33f7063c6d7a4db0869289a".to_string(),
        ]
    );
    assert_eq!(outcome, EnqueueOutcome::Queued);
}

#[test]
fn a_unique_job_takes_its_lock_first() {
    let ttl = Duration::from_millis(30_999);
    let enqueue = UnitOfWork::from_job(job(Some(ttl))).enqueue_direct(NOW);
    let (commands, outcome) = run(enqueue, &[Reply::Value, Reply::Value, Reply::Value]);
    assert_eq!(
        commands,
        vec![
            "SET sidekiq:unique:yolo:YoloWorker:\
             66738f89bd1003c76dcf476ef270ab71613c61d44f7485761e9f7b42ea2c7d4f '' NX EX 30"
                .to_string(),
            "SADD queues yolo".to_string(),
            "LPUSH queue:yolo YoloWorker f33f7063c6d7a4db0869289a".to_string(),
        ]
    );
    assert_eq!(outcome, EnqueueOutcome::Queued);
}

#[test]
fn a_duplicate_is_dropped() {
    let ttl = Duration::from_secs(30);
    let enqueue = UnitOfWork::from_job(job(Some(ttl))).enqueue_direct(NOW);
    let (commands, outcome) = run(enqueue, &[Reply::Nil]);
    assert_eq!(commands.len(), 1);
    assert_eq!(outcome, EnqueueOutcome::Duplicate);
}

#[test]
fn a_finished_push_stays_finished() {
    let enqueue = UnitOfWork::from_job(job(Some(Duration::from_secs(1)))).enqueue_direct(NOW);
    let enqueue = enqueue.resume(Reply::Nil).resume(Reply::Value);
    let (commands, outcome) = run(enqueue, &[]);
    assert!(commands.is_empty());
    assert_eq!(outcome, EnqueueOutcome::Duplicate);
}

#[test]
fn a_failed_command_ends_the_push_with_its_error() {
    let ttl = Duration::from_secs(30);
    let start = || UnitOfWork::from_job(job(Some(ttl))).enqueue_direct(NOW);
    assert_eq!(start().follow(Err("no lock")).err(), Some("no lock"));
    let registering = start().follow(Ok::<Reply, &str>(Reply::Value)).unwrap();
    assert!(matches!(registering.action(), EnqueueAction::Sadd { .. }));
    assert_eq!(registering.follow(Err("no queue")).err(), Some("no queue"));
    let pushing = start().resume(Reply::Value).resume(Reply::Value);
    assert!(matches!(pushing.action(), EnqueueAction::Lpush { .. }));
    assert_eq!(pushing.follow(Err("no push")).err(), Some("no push"));

    // The lock is still there when the job is pushed again.
    let (commands, outcome) = run(start(), &[Reply::Nil]);
    assert_eq!(commands.len(), 1);
    assert_eq!(outcome, EnqueueOutcome::Duplicate);
}

#[test]
fn the_same_work_asks_for_one_lock() {
    let lock = |args: Value| {
        let enqueue = opts()
            .unique_for(Duration::from_secs(5))
            .perform_async("C".to_string(), args);
        match enqueue.action() {
            EnqueueAction::SetNxEx { key, .. } => key,
            other => panic!("{other:?}"),
        }
    };
    for args in [
        Value::Null,
        Value::from("USR-123"),
        Value::Array(vec![Value::from(1), Value::from(2)]),
    ] {
        assert_eq!(lock(args.clone()), lock(args));
    }
    assert_ne!(lock(Value::Null), lock(Value::from(0)));
}

#[test]
fn the_pushed_payload_is_the_job() {
    let wanted = job(None);
    let enqueue = UnitOfWork::from_job(wanted.clone()).enqueue_direct(NOW);
    match enqueue.resume(Reply::Value).action() {
        EnqueueAction::Lpush { payload, .. } => {
            assert_eq!(payload.retry, RetryField::Flag(true));
            let back = Job::from_payload(payload);
            assert_eq!(back.queue, wanted.queue);
            assert_eq!(back.class, wanted.class);
            assert_eq!(back.created_at, wanted.created_at);
            assert_eq!(back.enqueued_at, Some(Timestamp::Seconds(NOW)));
            assert_eq!(coerce_args(back.args, false, false), Value::from("USR-123"));
        }
        other => panic!("{other:?}"),
    }
}

#[test]
fn enqueueing_stamps_the_current_time() {
    let enqueue = UnitOfWork::from_job(job(None)).enqueue();
    match enqueue.job.enqueued_at {
        Some(Timestamp::Seconds(secs)) => assert!(secs > NOW),
        other => panic!("{other:?}"),
    }
}

#[test]
fn jobs_are_enqueued_by_class_name() {
    let enqueue = perform_async(
        "PaymentReportWorker".to_string(),
        "yolo".to_string(),
        Value::from("USR-123"),
    );
    assert_eq!(enqueue.queue_key, "queue:yolo");
    assert_eq!(enqueue.job.class, "PaymentReportWorker");
    assert_eq!(enqueue.job.args, Value::Array(vec![Value::from("USR-123")]));
    assert_eq!(enqueue.job.unique_for, None);
    match enqueue.action() {
        EnqueueAction::Sadd { key, member } => {
            assert_eq!(key, "queues");
            assert_eq!(member, "yolo");
        }
        other => panic!("{other:?}"),
    }
}

#[test]
fn unique_locks_depend_on_queue_class_and_arguments() {
    let args = Value::Array(vec![Value::from(1)]);
    let key = unique_lock_key("q", "C", &args);
    assert_eq!(
        key,
        "sidekiq:unique:q:C:080a9ed428559ef602668b4c00f114f1a11c3f6b02a435f0bdc154578e4d7f22"
    );
    assert_eq!(key, unique_lock_key("q", "C", &args.clone()));
    assert_ne!(key, unique_lock_key("r", "C", &args));
    assert_ne!(key, unique_lock_key("q", "D", &args));
    assert_ne!(key, unique_lock_key("q", "C", &Value::from(1)));
}

#[test]
fn colons_in_names_do_not_make_two_locks_one() {
    let args = Value::Array(vec![Value::from(1)]);
    let digest = "080a9ed428559ef602668b4c00f114f1a11c3f6b02a435f0bdc154578e4d7f22";
    assert_eq!(
        unique_lock_key("q:A", "B", &args),
        format!("sidekiq:unique:q:A:B:{digest}:#3")
    );
    assert_eq!(
        unique_lock_key("q", "A:B", &args),
        format!("sidekiq:unique:q:A:B:{digest}")
    );
    assert_ne!(unique_lock_key("a:b", "c:d", &args), unique_lock_key("a:b:c", "d", &args));
    // A class cannot pass for a digest and a mark either.
    assert_ne!(
        unique_lock_key("a:b", "c", &args),
        unique_lock_key("a", &format!("b:c:{digest}:#3"), &args)
    );
}

#[test]
fn jobs_that_differ_take_different_locks() {
    let lock = |queue: &str, class: &str, args: i64| {
        let mut unit = UnitOfWork::from_job(opts().queue(queue).create_job_at(
            class.to_string(),
            Value::from(args),
            "jid".to_string(),
            1,
        ));
        unit.job.unique_for = Some(Duration::from_secs(1));
        match unit.enqueue_direct(NOW).action() {
            EnqueueAction::SetNxEx { key, .. } => key,
            other => panic!("{other:?}"),
        }
    };
    assert_eq!(lock("q", "C", 1), lock("q", "C", 1));
    assert_ne!(lock("q", "C", 1), lock("r", "C", 1));
    assert_ne!(lock("q", "C", 1), lock("q", "D", 1));
    assert_ne!(lock("q", "C", 1), lock("q", "C", 2));
    assert_ne!(lock("q:A", "B", 1), lock("q", "A:B", 1));
}

#[test]
fn pushing_is_traced_at_its_end() {
    let config = TracingConfig::default();
    let enqueue = UnitOfWork::from_job(job(None)).enqueue_direct(NOW);
    assert!(enqueue.trace(&config).is_none());
    let enqueue = enqueue.resume(Reply::Value);
    assert!(enqueue.trace(&config).is_none());
    let enqueue = enqueue.resume(Reply::Value);
    let event = enqueue.trace(&config).unwrap();
    assert_eq!(event.name, "job.enqueued");
    assert_eq!(event.status, "queued");
    assert!(enqueue
        .trace(&config.verbosity(TracingVerbosity::Off))
        .is_none());
}

#[test]
fn dropping_is_traced_only_verbosely() {
    let ttl = Duration::from_secs(30);
    let enqueue = UnitOfWork::from_job(job(Some(ttl)))
        .enqueue_direct(NOW)
        .resume(Reply::Nil);
    let config = TracingConfig::default();
    assert!(enqueue.trace(&config).is_none());
    let event = enqueue
        .trace(&config.verbosity(TracingVerbosity::Verbose))
        .unwrap();
    assert_eq!(event.name, "job.deduplicated");
    assert_eq!(event.status, "duplicate");
}

#[test]
fn keys_are_prefixed_with_their_namespace() {
    let namespace = Namespace::custom("my_cool_app".to_string());
    assert_eq!(namespace.key("schedule"), "my_cool_app:schedule");
    assert_eq!(Namespace::none().key("schedule"), "schedule");
    assert_ne!(namespace.key("schedule"), namespace.key("retry"));
}
