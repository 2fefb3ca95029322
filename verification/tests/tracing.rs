use serde_json::Value;
use sidekiq::telemetry::{emit_lifecycle_traces, emit_verbose_traces, opens_span, JobEvent, TraceLevel};
use sidekiq::{
    opts, set_tracing_config, tracing_config, tracing_config_cell, Job, TracingConfig,
    TracingVerbosity,
};

const EVENTS: [JobEvent; 4] = [
    JobEvent::Enqueued,
    JobEvent::Deduplicated,
    JobEvent::RetryScheduled(5),
    JobEvent::Scheduled(6),
];

fn at(verbosity: TracingVerbosity) -> TracingConfig {
    TracingConfig::default().verbosity(verbosity)
}

fn job() -> Job {
    let mut job = opts().queue("q").create_job_at(
        "Class".to_string(),
        Value::Null,
        "jid".to_string(),
        1,
    );
    job.retry_count = Some(4);
    job
}

#[test]
fn lifecycle_is_the_default() {
    assert_eq!(TracingConfig::default().verbosity, TracingVerbosity::Lifecycle);
    assert_eq!(tracing_config(&tracing_config_cell()), TracingConfig::default());
}

#[test]
fn the_configuration_that_was_set_last_is_in_force() {
    let mut cell = tracing_config_cell();
    set_tracing_config(&mut cell, at(TracingVerbosity::Verbose));
    assert_eq!(tracing_config(&cell), at(TracingVerbosity::Verbose));
    set_tracing_config(&mut cell, at(TracingVerbosity::Off));
    assert_eq!(tracing_config(&cell), at(TracingVerbosity::Off));
}

#[test]
fn verbosity_decides_what_is_emitted() {
    let levels = [
        (TracingVerbosity::Off, false, false),
        (TracingVerbosity::Lifecycle, true, false),
        (TracingVerbosity::Verbose, true, true),
    ];
    for (verbosity, lifecycle, verbose) in levels {
        assert_eq!(emit_lifecycle_traces(&at(verbosity)), lifecycle);
        assert_eq!(emit_verbose_traces(&at(verbosity)), verbose);
    }
    assert!(TracingVerbosity::Off < TracingVerbosity::Lifecycle);
    assert!(TracingVerbosity::Lifecycle < TracingVerbosity::Verbose);
}

#[test]
fn no_span_is_opened_when_tracing_is_off() {
    assert!(!opens_span(&at(TracingVerbosity::Off)));
    assert!(opens_span(&at(TracingVerbosity::Lifecycle)));
    assert!(opens_span(&at(TracingVerbosity::Verbose)));
}

#[test]
fn no_event_is_emitted_when_tracing_is_off() {
    for event in EVENTS {
        assert!(event.trace(&job(), &at(TracingVerbosity::Off)).is_none());
    }
}

#[test]
fn every_event_is_emitted_verbosely() {
    for event in EVENTS {
        assert!(event.trace(&job(), &at(TracingVerbosity::Verbose)).is_some());
    }
}

#[test]
fn lifecycle_leaves_out_deduplication() {
    for event in EVENTS {
        let trace = event.trace(&job(), &at(TracingVerbosity::Lifecycle));
        assert_eq!(trace.is_none(), event == JobEvent::Deduplicated);
    }
}

#[test]
fn events_describe_the_job() {
    let trace = JobEvent::RetryScheduled(1_700_000_000)
        .trace(&job(), &TracingConfig::default())
        .unwrap();
    assert_eq!(trace.level, TraceLevel::Info);
    assert_eq!(trace.name, "job.retry_scheduled");
    assert_eq!(trace.status, "retry_scheduled");
    assert_eq!(trace.jid, "jid");
    assert_eq!(trace.class, "Class");
    assert_eq!(trace.queue, "q");
    assert_eq!(trace.retry_count, 4);
    assert_eq!(trace.worker_type, "retry");
    assert_eq!(trace.enqueue_at, Some(1_700_000_000));

    let mut first = job();
    first.retry_count = None;
    let trace = JobEvent::Deduplicated
        .trace(&first, &at(TracingVerbosity::Verbose))
        .unwrap();
    assert_eq!(trace.level, TraceLevel::Debug);
    assert_eq!(trace.retry_count, 0);
    assert_eq!(trace.worker_type, "async");
    assert_eq!(trace.enqueue_at, None);

    let trace = JobEvent::Scheduled(6)
        .trace(&first, &TracingConfig::default())
        .unwrap();
    assert_eq!(trace.name, "job.scheduled");
    assert_eq!(trace.worker_type, "scheduled");
}
