use sidekiq::metrics::{Attribute, AttributeValue, Gauge, Reading};
use sidekiq::stats::{
    current_process_rss_kb, generate_identity, identity_of, rss_kb, StatValue, StatsCommand,
};
use sidekiq::{Counter, OpenTelemetryStatsPublisher, StatsPublisher, Timestamp};

#[test]
fn collects_current_process_rss_in_kb() {
    let rss_kb = current_process_rss_kb()
        .parse::<u64>()
        .expect("rss should be a valid integer");

    assert!(rss_kb > 0, "rss should be greater than zero");
}

fn read_gauge_value(readings: &[Reading], name: &str) -> Option<u64> {
    readings
        .iter()
        .find(|reading| reading.gauge.name() == name)
        .map(|reading| reading.value)
}

#[test]
fn open_telemetry_stats_publisher_records_processor_metrics() {
    let mut busy_jobs = Counter::new(0);
    busy_jobs.incrby(3);
    let publisher = OpenTelemetryStatsPublisher::new(
        "test-host".to_string(),
        vec!["default".to_string(), "critical".to_string()],
        8,
        4242,
    );

    let metrics = publisher.publish_stats(&busy_jobs);

    assert_eq!(
        read_gauge_value(&metrics, "rusty_sidekiq_processor_info"),
        Some(1)
    );
    assert_eq!(
        read_gauge_value(&metrics, "rusty_sidekiq_processor_busy_jobs"),
        Some(3)
    );
    assert_eq!(
        read_gauge_value(&metrics, "rusty_sidekiq_processor_concurrency"),
        Some(8)
    );
    assert!(
        read_gauge_value(&metrics, "rusty_sidekiq_processor_started_at_unix_time")
            .unwrap_or_default()
            > 0
    );
    assert!(
        read_gauge_value(&metrics, "rusty_sidekiq_processor_heartbeat_unix_time")
            .unwrap_or_default()
            > 0
    );
}

fn text(attribute: &Attribute) -> &str {
    match &attribute.value {
        AttributeValue::Text(text) => text,
        other => panic!("{other:?}"),
    }
}

#[test]
fn readings_carry_the_description_of_the_process() {
    let publisher = OpenTelemetryStatsPublisher::with_identity(
        "host".to_string(),
        vec!["a".to_string(), "b".to_string(), "c".to_string()],
        4,
        107068,
        "host:107068:00".to_string(),
        1_700_000_000,
    );
    let keys: Vec<&str> = publisher.attributes.iter().map(|a| a.key).collect();
    assert_eq!(keys, vec!["hostname", "identity", "pid", "queues"]);
    assert_eq!(text(&publisher.attributes[0]), "host");
    assert_eq!(text(&publisher.attributes[1]), "host:107068:00");
    assert!(matches!(publisher.attributes[2].value, AttributeValue::Int(107068)));
    assert_eq!(text(&publisher.attributes[3]), "a,b,c");

    let readings = publisher.readings_at(&Counter::new(2), 1_700_000_005);
    assert_eq!(
        readings,
        vec![
            Reading { gauge: Gauge::Info, value: 1 },
            Reading { gauge: Gauge::Heartbeat, value: 1_700_000_005 },
            Reading { gauge: Gauge::BusyJobs, value: 2 },
            Reading { gauge: Gauge::Concurrency, value: 4 },
            Reading { gauge: Gauge::StartedAt, value: 1_700_000_000 },
        ]
    );
}

#[test]
fn gauges_of_times_count_seconds() {
    assert_eq!(Gauge::Heartbeat.unit(), Some("s"));
    assert_eq!(Gauge::StartedAt.unit(), Some("s"));
    assert_eq!(Gauge::Info.unit(), None);
    assert_eq!(Gauge::BusyJobs.unit(), None);
    assert_eq!(Gauge::Concurrency.unit(), None);
    assert_eq!(
        Gauge::BusyJobs.description(),
        "Number of jobs currently being processed by this processor."
    );
}

#[test]
fn counters_count_up_and_down() {
    let mut counter = Counter::new(5);
    counter.incrby(3);
    assert_eq!(counter.value(), 8);
    counter.decrby(8);
    assert_eq!(counter.value(), 0);
}

#[test]
fn counters_wrap_around_and_come_back() {
    let mut counter = Counter::new(0);
    counter.decrby(1);
    assert_eq!(counter.value(), usize::MAX);
    counter.incrby(1);
    assert_eq!(counter.value(), 0);
    counter.incrby(usize::MAX);
    counter.incrby(2);
    assert_eq!(counter.value(), 1);
}

#[test]
fn counters_lose_no_change_in_any_order() {
    let run = |steps: &[isize]| {
        let mut counter = Counter::new(1);
        for step in steps {
            if *step < 0 {
                counter.decrby(step.unsigned_abs());
            } else {
                counter.incrby(*step as usize);
            }
        }
        counter.value()
    };
    assert_eq!(run(&[3, -2, 4]), 6);
    assert_eq!(run(&[-2, 4, 3]), 6);
    assert_eq!(run(&[-2, 3, 4]), run(&[4, 3, -2]));
    assert_eq!(run(&[]), 1);
}

#[test]
fn memory_is_reported_in_kib() {
    assert_eq!(rss_kb(None), "0");
    assert_eq!(rss_kb(Some(0)), "0");
    assert_eq!(rss_kb(Some(1_023)), "0");
    assert_eq!(rss_kb(Some(1_024)), "1");
    assert_eq!(rss_kb(Some(10_485_761)), "10240");
    assert_eq!(rss_kb(Some(u64::MAX)), "18014398509481983");
}

#[test]
fn identities_name_host_process_and_nonce() {
    assert_eq!(
        identity_of("DESKTOP-UMSV21A", 107068, "5075431aeb06"),
        "DESKTOP-UMSV21A:107068:5075431aeb06"
    );
    let identity = generate_identity(&"host".to_string(), 7);
    let nonce = identity.strip_prefix("host:7:").unwrap();
    assert_eq!(nonce.len(), 24);
    assert!(nonce.chars().all(|c| c.is_ascii_hexdigit()));
    assert_ne!(identity, generate_identity(&"host".to_string(), 7));
}

fn describe(value: &StatValue) -> String {
    match value {
        StatValue::Text(text) => text.clone(),
        StatValue::Count(count) => format!("{count}"),
        StatValue::Flag(flag) => format!("{flag}"),
        StatValue::UnixTime(time) => format!("{time}"),
        StatValue::Info(info) => {
            assert_eq!(info.tag, None);
            assert!(info.labels.is_empty());
            assert_eq!(info.started_at, Timestamp::Seconds(1_658_082_501));
            format!(
                "{} {} {} {} {:?}",
                info.hostname, info.identity, info.pid, info.concurrency, info.queues
            )
        }
    }
}

#[test]
fn a_heartbeat_is_written_expires_and_is_listed() {
    let publisher = StatsPublisher::with_identity(
        "host".to_string(),
        vec!["v1".to_string(), "v2".to_string()],
        10,
        107068,
        "host:107068:5075431aeb06".to_string(),
        1_658_082_501,
    );
    let stats =
        publisher.create_process_stats(&Counter::new(3), "2048".to_string(), 1_658_082_511);
    let commands = stats.into_commands(&publisher.identity);
    assert_eq!(commands.len(), 3);
    match &commands[0] {
        StatsCommand::Hset { key, fields } => {
            assert_eq!(key, "host:107068:5075431aeb06");
            let written: Vec<(&str, String)> =
                fields.iter().map(|(name, value)| (*name, describe(value))).collect();
            assert_eq!(
                written,
                vec![
                    ("rss", "2048".to_string()),
                    ("rtt_us", "0".to_string()),
                    ("busy", "3".to_string()),
                    ("quiet", "false".to_string()),
                    ("beat", "1658082511".to_string()),
                    (
                        "info",
                        "host host:107068:5075431aeb06 107068 10 [\"v1\", \"v2\"]".to_string()
                    ),
                ]
            );
        }
        other => panic!("{other:?}"),
    }
    match &commands[1] {
        StatsCommand::Expire { key, secs } => {
            assert_eq!(key, "host:107068:5075431aeb06");
            assert_eq!(*secs, 30);
        }
        other => panic!("{other:?}"),
    }
    match &commands[2] {
        StatsCommand::Sadd { key, member } => {
            assert_eq!(key, "processes");
            assert_eq!(member, "host:107068:5075431aeb06");
        }
        other => panic!("{other:?}"),
    }
}

#[test]
fn a_new_publisher_reports_the_current_process() {
    let publisher = StatsPublisher::new("host".to_string(), vec!["q".to_string()], 2, 9);
    assert!(publisher.identity.starts_with("host:9:"));
    assert!(publisher.started_at > 1_600_000_000);
    let commands = publisher.publish_stats(&Counter::new(1));
    match &commands[0] {
        StatsCommand::Hset { key, fields } => {
            assert_eq!(*key, publisher.identity);
            match &fields[0].1 {
                StatValue::Text(rss) => assert!(rss.parse::<u64>().unwrap() > 0),
                other => panic!("{other:?}"),
            }
        }
        other => panic!("{other:?}"),
    }
}
