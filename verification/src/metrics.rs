//! Process statistics as OpenTelemetry gauges.

use crate::clock::{is_clock_reading, is_clock_second, read_clock, UtcTime, MAX_UTC_SECS};
use crate::stats::{generate_identity, is_drawn_identity, is_identity, Counter};
use crate::text::{join, joined, texts};
use vstd::prelude::*;

verus! {

/// A gauge of a processor.
#[derive(Clone, Copy, Debug, PartialEq, Eq, Structural)]
pub enum Gauge {
    /// Always one: its attributes describe the processor.
    Info,
    /// Unix time of the most recent heartbeat.
    Heartbeat,
    /// Number of jobs in progress.
    BusyJobs,
    /// Configured concurrency.
    Concurrency,
    /// Unix time of the start.
    StartedAt,
}

impl Gauge {
    /// The name of this gauge.
    pub open spec fn spec_name(self) -> Seq<char> {
        match self {
            Gauge::Info => "rusty_sidekiq_processor_info"@,
            Gauge::Heartbeat => "rusty_sidekiq_processor_heartbeat_unix_time"@,
            Gauge::BusyJobs => "rusty_sidekiq_processor_busy_jobs"@,
            Gauge::Concurrency => "rusty_sidekiq_processor_concurrency"@,
            Gauge::StartedAt => "rusty_sidekiq_processor_started_at_unix_time"@,
        }
    }

    /// Whether this gauge counts seconds.
    pub open spec fn counts_seconds(self) -> bool {
        self == Gauge::Heartbeat || self == Gauge::StartedAt
    }

    /// The description of this gauge.
    pub open spec fn spec_description(self) -> Seq<char> {
        match self {
            Gauge::Info => "Static metadata for a rusty-sidekiq processor instance."@,
            Gauge::Heartbeat => "Unix timestamp of the most recent processor heartbeat."@,
            Gauge::BusyJobs => "Number of jobs currently being processed by this processor."@,
            Gauge::Concurrency => "Configured worker concurrency for this processor."@,
            Gauge::StartedAt => "Unix timestamp of when this processor instance started."@,
        }
    }

    /// Returns the name of this gauge.
    pub fn name(&self) -> (r: &'static str)
        ensures
            r@ == self.spec_name(),
    {
        match *self {
            Gauge::Info => "rusty_sidekiq_processor_info",
            Gauge::Heartbeat => "rusty_sidekiq_processor_heartbeat_unix_time",
            Gauge::BusyJobs => "rusty_sidekiq_processor_busy_jobs",
            Gauge::Concurrency => "rusty_sidekiq_processor_concurrency",
            Gauge::StartedAt => "rusty_sidekiq_processor_started_at_unix_time",
        }
    }

    /// Returns the unit of this gauge, if it has one.
    pub fn unit(&self) -> (r: Option<&'static str>)
        ensures
            match r {
                Some(unit) => self.counts_seconds() && unit@ == "s"@,
                None => !self.counts_seconds(),
            },
    {
        match *self {
            Gauge::Heartbeat | Gauge::StartedAt => Some("s"),
            _ => None,
        }
    }

    /// Returns the description of this gauge.
    pub fn description(&self) -> (r: &'static str)
        ensures
            r@ == self.spec_description(),
    {
        match *self {
            Gauge::Info => "Static metadata for a rusty-sidekiq processor instance.",
            Gauge::Heartbeat => "Unix timestamp of the most recent processor heartbeat.",
            Gauge::BusyJobs => "Number of jobs currently being processed by this processor.",
            Gauge::Concurrency => "Configured worker concurrency for this processor.",
            Gauge::StartedAt => "Unix timestamp of when this processor instance started.",
        }
    }
}

/// The value of an attribute.
#[derive(Debug)]
pub enum AttributeValue {
    /// Text.
    Text(String),
    /// An integer.
    Int(i64),
}

/// An attribute that every reading carries.
#[derive(Debug)]
pub struct Attribute {
    /// Key.
    pub key: &'static str,
    /// Value.
    pub value: AttributeValue,
}

/// A value to record on a gauge.
#[derive(Clone, Copy, Debug, PartialEq, Eq, Structural)]
pub struct Reading {
    /// Gauge.
    pub gauge: Gauge,
    /// Value.
    pub value: u64,
}

/// Publishes process statistics as OpenTelemetry metrics.
#[derive(Debug)]
pub struct OpenTelemetryStatsPublisher {
    /// Unix time at which the process started.
    pub started_at: i64,
    /// How many jobs the process works on at once.
    pub concurrency: usize,
    /// Attributes that every reading carries.
    pub attributes: Vec<Attribute>,
}

/// Whether `attributes` describe the process `pid` on `hostname` with the given identity and
/// queues.
pub open spec fn is_description(
    attributes: Seq<Attribute>,
    hostname: String,
    identity: String,
    pid: u32,
    queues: Vec<String>,
) -> bool {
    &&& attributes.len() == 4
    &&& attributes[0].key@ == "hostname"@ && attributes[0].value == AttributeValue::Text(hostname)
    &&& attributes[1].key@ == "identity"@ && attributes[1].value == AttributeValue::Text(identity)
    &&& attributes[2].key@ == "pid"@ && attributes[2].value == AttributeValue::Int(pid as i64)
    &&& attributes[3].key@ == "queues"@
    &&& attributes[3].value matches AttributeValue::Text(list) && list@ == joined(
        texts(queues@),
        ","@,
    )
}

impl OpenTelemetryStatsPublisher {
    /// Creates a stats publisher with the given identity and start.
    pub fn with_identity(
        hostname: String,
        queues: Vec<String>,
        concurrency: usize,
        pid: u32,
        identity: String,
        started_at: i64,
    ) -> (r: Self)
        ensures
            r.concurrency == concurrency,
            r.started_at == started_at,
            is_description(r.attributes@, hostname, identity, pid, queues),
    {
        let list: String = join(&queues, ",");
        let mut attributes: Vec<Attribute> = Vec::new();
        attributes.push(Attribute { key: "hostname", value: AttributeValue::Text(hostname) });
        attributes.push(Attribute { key: "identity", value: AttributeValue::Text(identity) });
        attributes.push(Attribute { key: "pid", value: AttributeValue::Int(pid as i64) });
        attributes.push(Attribute { key: "queues", value: AttributeValue::Text(list) });
        OpenTelemetryStatsPublisher { started_at, concurrency, attributes }
    }

    /// Creates a stats publisher for the processor of the process `pid`, which starts now.
    #[must_use]
    pub fn new(hostname: String, queues: Vec<String>, concurrency: usize, pid: u32) -> (r: Self)
        ensures
            r.concurrency == concurrency,
            0 <= r.started_at <= MAX_UTC_SECS,
            is_clock_second(r.started_at),
            exists|identity: String|
                {
                    &&& is_identity(identity@, hostname@, pid)
                    &&& is_drawn_identity(identity@, hostname@, pid)
                    &&& #[trigger] is_description(r.attributes@, hostname, identity, pid, queues)
                },
    {
        let identity: String = generate_identity(&hostname, pid);
        Self::with_identity(hostname, queues, concurrency, pid, identity, read_clock().secs)
    }

    /// The readings of one heartbeat at the Unix time `beat` while `busy` jobs are in progress.
    pub open spec fn readings(self, busy: usize, beat: i64) -> Seq<Reading> {
        seq![
            Reading { gauge: Gauge::Info, value: 1 },
            Reading { gauge: Gauge::Heartbeat, value: beat as u64 },
            Reading { gauge: Gauge::BusyJobs, value: busy as u64 },
            Reading { gauge: Gauge::Concurrency, value: self.concurrency as u64 },
            Reading { gauge: Gauge::StartedAt, value: self.started_at as u64 },
        ]
    }

    /// Returns the readings of one heartbeat at the Unix time `beat`.
    pub fn readings_at(&self, busy_jobs: &Counter, beat: i64) -> (r: Vec<Reading>)
        ensures
            r@ == self.readings(busy_jobs@, beat),
    {
        let mut readings: Vec<Reading> = Vec::new();
        readings.push(Reading { gauge: Gauge::Info, value: 1 });
        readings.push(Reading { gauge: Gauge::Heartbeat, value: beat as u64 });
        readings.push(Reading { gauge: Gauge::BusyJobs, value: busy_jobs.value() as u64 });
        readings.push(Reading { gauge: Gauge::Concurrency, value: self.concurrency as u64 });
        readings.push(Reading { gauge: Gauge::StartedAt, value: self.started_at as u64 });
        assert(readings@ =~= self.readings(busy_jobs@, beat));
        readings
    }

    /// Returns the readings of one heartbeat now.
    pub fn publish_stats(&self, busy_jobs: &Counter) -> (r: Vec<Reading>)
        ensures
            exists|beat: i64|
                0 <= beat <= MAX_UTC_SECS && is_clock_second(beat) && r@
                    == #[trigger] self.readings(busy_jobs@, beat),
    {
        self.readings_at(busy_jobs, read_clock().secs)
    }
}

/// A heartbeat reads each gauge exactly once.
pub proof fn law_heartbeat_reads_each_gauge_once(
    publisher: OpenTelemetryStatsPublisher,
    busy: usize,
    beat: i64,
    gauge: Gauge,
) -> (at: int)
    ensures
        0 <= at < publisher.readings(busy, beat).len(),
        forall|i: int|
            0 <= i < publisher.readings(busy, beat).len() ==> (#[trigger] publisher.readings(
                busy,
                beat,
            )[i].gauge == gauge <==> i == at),
{
    match gauge {
        Gauge::Info => 0,
        Gauge::Heartbeat => 1,
        Gauge::BusyJobs => 2,
        Gauge::Concurrency => 3,
        Gauge::StartedAt => 4,
    }
}

/// Each gauge has its own name, and exactly those of times have a unit: seconds.
pub proof fn law_gauges_are_named(gauge: Gauge, name: &'static str, unit: Option<&'static str>)
    requires
        call_ensures(Gauge::name, (&gauge,), name),
        call_ensures(Gauge::unit, (&gauge,), unit),
    ensures
        match gauge {
            Gauge::Info => name@ == "rusty_sidekiq_processor_info"@ && unit is None,
            Gauge::Heartbeat => {
                &&& name@ == "rusty_sidekiq_processor_heartbeat_unix_time"@
                &&& unit matches Some(seconds) && seconds@ == "s"@
            },
            Gauge::BusyJobs => name@ == "rusty_sidekiq_processor_busy_jobs"@ && unit is None,
            Gauge::Concurrency => name@ == "rusty_sidekiq_processor_concurrency"@ && unit is None,
            Gauge::StartedAt => {
                &&& name@ == "rusty_sidekiq_processor_started_at_unix_time"@
                &&& unit matches Some(seconds) && seconds@ == "s"@
            },
        },
{
}

/// Each gauge is described.
pub proof fn law_gauges_are_described(gauge: Gauge, description: &'static str)
    requires
        call_ensures(Gauge::description, (&gauge,), description),
    ensures
        description@ == match gauge {
            Gauge::Info => "Static metadata for a rusty-sidekiq processor instance."@,
            Gauge::Heartbeat => "Unix timestamp of the most recent processor heartbeat."@,
            Gauge::BusyJobs => "Number of jobs currently being processed by this processor."@,
            Gauge::Concurrency => "Configured worker concurrency for this processor."@,
            Gauge::StartedAt => "Unix timestamp of when this processor instance started."@,
        },
{
}

/// A heartbeat reads one, the time, the jobs in progress, the concurrency and the start, each on its
/// own gauge.
pub proof fn law_readings_carry_what_they_are_given(
    publisher: OpenTelemetryStatsPublisher,
    busy_jobs: Counter,
    busy: usize,
    beat: i64,
    readings: Vec<Reading>,
    i: int,
)
    requires
        call_ensures(Counter::value, (&busy_jobs,), busy),
        call_ensures(
            OpenTelemetryStatsPublisher::readings_at,
            (&publisher, &busy_jobs, beat),
            readings,
        ),
        0 <= i < readings@.len(),
    ensures
        readings@.len() == 5,
        readings@[i].gauge == (if i == 0 {
            Gauge::Info
        } else if i == 1 {
            Gauge::Heartbeat
        } else if i == 2 {
            Gauge::BusyJobs
        } else if i == 3 {
            Gauge::Concurrency
        } else {
            Gauge::StartedAt
        }),
        readings@[0].value == 1,
        beat >= 0 ==> readings@[1].value == beat,
        readings@[2].value == busy,
        readings@[3].value == publisher.concurrency,
        publisher.started_at >= 0 ==> readings@[4].value == publisher.started_at,
{
}

/// A heartbeat that is published reads the time that the clock showed, on the gauge of heartbeats,
/// and the other values on theirs.
pub proof fn law_published_readings_are_of_now(
    publisher: OpenTelemetryStatsPublisher,
    busy_jobs: Counter,
    busy: usize,
    readings: Vec<Reading>,
) -> (now: UtcTime)
    requires
        call_ensures(Counter::value, (&busy_jobs,), busy),
        call_ensures(
            OpenTelemetryStatsPublisher::publish_stats,
            (&publisher, &busy_jobs),
            readings,
        ),
    ensures
        is_clock_reading(now),
        readings@.len() == 5,
        readings@[0] == (Reading { gauge: Gauge::Info, value: 1 }),
        readings@[1].gauge == Gauge::Heartbeat && readings@[1].value == now.secs,
        readings@[2].gauge == Gauge::BusyJobs && readings@[2].value == busy,
        readings@[3].gauge == Gauge::Concurrency && readings@[3].value == publisher.concurrency,
        readings@[4].gauge == Gauge::StartedAt,
        publisher.started_at >= 0 ==> readings@[4].value == publisher.started_at,
{
    let beat = choose|beat: i64|
        0 <= beat <= MAX_UTC_SECS && is_clock_second(beat) && readings@
            == #[trigger] publisher.readings(busy_jobs@, beat);
    choose|now: UtcTime| #[trigger] is_clock_reading(now) && now.secs == beat
}

/// A publisher with a given identity and start keeps them, and its attributes give the host, the
/// identity, the number of the process and the queues, joined by commas.
pub proof fn law_attributes_describe_the_process(
    hostname: String,
    queues: Vec<String>,
    concurrency: usize,
    pid: u32,
    identity: String,
    started_at: i64,
    publisher: OpenTelemetryStatsPublisher,
    list: String,
)
    requires
        call_ensures(
            OpenTelemetryStatsPublisher::with_identity,
            (hostname, queues, concurrency, pid, identity, started_at),
            publisher,
        ),
        call_ensures(join, (&queues, ","), list),
    ensures
        publisher.concurrency == concurrency,
        publisher.started_at == started_at,
        publisher.attributes@.len() == 4,
        publisher.attributes@[0].key@ == "hostname"@,
        publisher.attributes@[0].value == AttributeValue::Text(hostname),
        publisher.attributes@[1].key@ == "identity"@,
        publisher.attributes@[1].value == AttributeValue::Text(identity),
        publisher.attributes@[2].key@ == "pid"@,
        publisher.attributes@[2].value matches AttributeValue::Int(number) && number == pid,
        publisher.attributes@[3].key@ == "queues"@,
        publisher.attributes@[3].value is Text,
        publisher.attributes@[3].value->Text_0@ == list@,
{
}

/// A new publisher keeps its concurrency, starts when the clock shows so, and describes its process
/// under a drawn identity.
pub proof fn law_new_publisher_describes_its_process(
    hostname: String,
    queues: Vec<String>,
    concurrency: usize,
    pid: u32,
    publisher: OpenTelemetryStatsPublisher,
) -> (now: UtcTime)
    requires
        call_ensures(
            OpenTelemetryStatsPublisher::new,
            (hostname, queues, concurrency, pid),
            publisher,
        ),
    ensures
        is_clock_reading(now),
        publisher.started_at == now.secs,
        publisher.concurrency == concurrency,
        publisher.attributes@.len() == 4,
        publisher.attributes@[0].key@ == "hostname"@,
        publisher.attributes@[0].value == AttributeValue::Text(hostname),
        publisher.attributes@[1].key@ == "identity"@,
        publisher.attributes@[1].value is Text,
        is_drawn_identity(publisher.attributes@[1].value->Text_0@, hostname@, pid),
        publisher.attributes@[2].key@ == "pid"@,
        publisher.attributes@[2].value matches AttributeValue::Int(number) && number == pid,
        publisher.attributes@[3].key@ == "queues"@,
        publisher.attributes@[3].value is Text,
        publisher.attributes@[3].value->Text_0@ == joined(texts(queues@), ","@),
{
    choose|now: UtcTime| #[trigger] is_clock_reading(now) && now.secs == publisher.started_at
}

} // verus!
