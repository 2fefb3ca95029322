use serde_json::Value;
use sidekiq::clock::{UtcTime, MAX_UTC_SECS};
use sidekiq::telemetry::JobEvent;
use sidekiq::unit_of_work::{retry_delay, RETRY_JITTER};
use sidekiq::{opts, perform_in, Error, Placement, UnitOfWork};
use std::time::Duration;

const NOW: UtcTime = UtcTime {
    secs: 1_700_000_000,
    nanos: 600_000_000,
};

fn unit() -> UnitOfWork {
    UnitOfWork::from_job(opts().queue("q").create_job_at(
        "Class".to_string(),
        Value::Null,
        "jid".to_string(),
        1_600_000_000,
    ))
}

#[test]
fn a_job_is_scheduled_in_the_second_in_which_its_delay_ends() {
    let zadd = unit().schedule_at(Duration::from_secs(60), &NOW).unwrap();
    assert_eq!(zadd.key, "schedule");
    assert_eq!(zadd.score, 1_700_000_060);
    assert_eq!(zadd.event, JobEvent::Scheduled(1_700_000_060));
    assert_eq!(zadd.payload.class, "Class");
    assert_eq!(zadd.payload.enqueued_at, None);

    let under = unit().schedule_at(Duration::new(1, 399_999_999), &NOW).unwrap();
    assert_eq!(under.score, 1_700_000_001);
    let over = unit().schedule_at(Duration::new(1, 400_000_000), &NOW).unwrap();
    assert_eq!(over.score, 1_700_000_002);
}

#[test]
fn a_delay_longer_than_a_date_can_take_is_an_error() {
    let longest = Duration::from_millis(i64::MAX as u64);
    assert!(matches!(
        unit().schedule(longest + Duration::from_nanos(1)),
        Err(Error::ChronoRange(_))
    ));
    assert!(matches!(
        unit().schedule_at(Duration::MAX, &NOW),
        Err(Error::ChronoRange(_))
    ));
    assert!(matches!(
        perform_in(Duration::MAX, "C".to_string(), "q".to_string(), Value::Null),
        Err(Error::ChronoRange(_))
    ));
}

#[test]
fn a_delay_can_end_after_the_last_date() {
    let longest = Duration::from_millis(i64::MAX as u64);
    assert!(matches!(unit().schedule(longest), Ok(Placement::BeyondCalendar)));
    let last = Duration::from_secs((MAX_UTC_SECS - NOW.secs) as u64);
    assert_eq!(unit().schedule_at(last, &NOW).unwrap().score, MAX_UTC_SECS);
}

#[test]
fn the_clock_decides_whether_the_calendar_has_a_date() {
    let last = Duration::from_secs((MAX_UTC_SECS - NOW.secs) as u64);
    match unit().schedule_placement(last, &NOW) {
        Ok(Placement::At(zadd)) => assert_eq!(zadd.score, MAX_UTC_SECS),
        other => panic!("{other:?}"),
    }
    assert!(matches!(
        unit().schedule_placement(last + Duration::from_millis(400), &NOW),
        Ok(Placement::BeyondCalendar)
    ));
    assert!(matches!(
        unit().schedule_placement(Duration::MAX, &NOW),
        Err(Error::ChronoRange(_))
    ));

    let mut retried = unit();
    assert!(retried.retry_placement(0, &NOW).is_none());
    retried.job.retry_count = Some(1);
    let end = |secs_before_the_last: i64| UtcTime {
        secs: MAX_UTC_SECS - secs_before_the_last,
        nanos: 999_999_999,
    };
    match retried.retry_placement(2, &end(20)) {
        Some(Placement::At(zadd)) => assert_eq!(zadd.score, MAX_UTC_SECS),
        other => panic!("{other:?}"),
    }
    assert!(matches!(
        retried.retry_placement(2, &end(19)),
        Some(Placement::BeyondCalendar)
    ));
}

#[test]
fn jobs_are_scheduled_by_class_name() {
    let hour = Duration::from_secs(3_600);
    match perform_in(hour, "C".to_string(), "q".to_string(), Value::from(1)) {
        Ok(Placement::At(zadd)) => {
            assert_eq!(zadd.key, "schedule");
            assert_eq!(zadd.payload.queue, "q");
            assert_eq!(zadd.payload.class, "C");
            assert_eq!(zadd.payload.args, Value::Array(vec![Value::from(1)]));
            assert!(zadd.score > 1_600_003_600);
        }
        other => panic!("{other:?}"),
    }
}

#[test]
fn retries_back_off_with_the_fourth_power() {
    assert_eq!(retry_delay(0, 0), Some(15));
    assert_eq!(retry_delay(0, 29), Some(44));
    assert_eq!(retry_delay(1, 0), Some(16));
    assert_eq!(retry_delay(3, 10), Some(81 + 15 + 40));
    assert_eq!(retry_delay(25, 29), Some(390_625 + 15 + 754));
    assert_eq!(retry_delay(65_535, 29), Some(18_445_618_199_572_250_625 + 15 + 1_900_544));
    assert_eq!(retry_delay(65_536, 0), None);
}

#[test]
fn later_retries_are_delayed_longer() {
    for jitter in [0, 7, RETRY_JITTER - 1] {
        for count in 0..30 {
            assert!(retry_delay(count, jitter) < retry_delay(count + 1, jitter));
        }
    }
}

#[test]
fn a_retry_is_due_after_its_delay() {
    assert_eq!(UnitOfWork::retry_job_at(2, 3, &NOW), 1_700_000_000 + 16 + 15 + 9);
}

#[test]
fn a_job_that_counts_its_retries_is_scheduled_again() {
    let mut unit = unit();
    unit.job.retry_count = Some(2);
    let zadd = unit.reenqueue_at(3, &NOW).unwrap();
    assert_eq!(zadd.key, "retry");
    assert_eq!(zadd.score, 1_700_000_040);
    assert_eq!(zadd.event, JobEvent::RetryScheduled(1_700_000_040));
    assert_eq!(zadd.payload.retry_count, Some(2));

    match unit.reenqueue() {
        Some(Placement::At(zadd)) => assert!(zadd.score > 1_700_000_000),
        other => panic!("{other:?}"),
    }
}

#[test]
fn a_job_that_counts_no_retries_is_not_scheduled_again() {
    assert!(unit().reenqueue_at(0, &NOW).is_none());
    assert!(unit().reenqueue().is_none());
}

#[test]
fn a_retry_can_be_due_after_the_last_date() {
    let mut unit = unit();
    for count in [2_000, 65_536, usize::MAX] {
        unit.job.retry_count = Some(count);
        assert!(matches!(unit.reenqueue(), Some(Placement::BeyondCalendar)));
    }
}

#[test]
fn random_parts_of_retries_stay_in_their_range() {
    let mut unit = unit();
    unit.job.retry_count = Some(0);
    let mut scores = Vec::new();
    for _ in 0..200 {
        match unit.reenqueue() {
            Some(Placement::At(zadd)) => scores.push(zadd.score),
            other => panic!("{other:?}"),
        }
    }
    let first = *scores.iter().min().unwrap();
    let last = *scores.iter().max().unwrap();
    assert!(last > first);
    assert!(last - first < 60);
}
