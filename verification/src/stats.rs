//! Process statistics.

use crate::clock::{is_clock_reading, is_clock_second, read_clock, UtcTime, MAX_UTC_SECS};
use crate::job::Timestamp;
use crate::random::{draw_bytes, is_drawn_nonce, is_nonce, nonce_text};
use crate::text::{copy_texts, decimal, decimal_text};
use vstd::prelude::*;

verus! {

/// Counter used for tracking processor state.
///
/// It wraps around at the ends of `usize`. A program that counts from several threads holds one
/// behind a lock.
#[derive(Debug)]
pub struct Counter {
    count: usize,
}

/// What is left of `value` when `usize` wraps around.
pub open spec fn wrapped(value: int) -> int {
    value % (usize::MAX + 1)
}

proof fn lemma_wrapped(value: int)
    requires
        -(usize::MAX + 1) <= value < 2 * (usize::MAX + 1),
    ensures
        wrapped(value) == if value < 0 {
            value + usize::MAX + 1
        } else if value <= usize::MAX {
            value
        } else {
            value - usize::MAX - 1
        },
{
    let modulus: int = usize::MAX + 1;
    let turns: int = if value < 0 {
        -1
    } else if value < modulus {
        0
    } else {
        1
    };
    vstd::arithmetic::div_mod::lemma_fundamental_div_mod_converse(
        value,
        modulus,
        turns,
        value - turns * modulus,
    );
}

proof fn lemma_wrapped_sum(value: int, change: int)
    ensures
        wrapped(wrapped(value) + change) == wrapped(value + change),
{
    vstd::arithmetic::div_mod::lemma_add_mod_noop_right(change, value, usize::MAX + 1);
    assert(wrapped(value) + change == change + wrapped(value));
    assert(value + change == change + value);
}

impl View for Counter {
    type V = usize;

    closed spec fn view(&self) -> usize {
        self.count
    }
}

impl Counter {
    /// Creates a new counter with the provided initial value.
    #[must_use]
    pub fn new(n: usize) -> (r: Self)
        ensures
            r@ == n,
    {
        Counter { count: n }
    }

    /// Reads the current counter value.
    #[must_use]
    pub fn value(&self) -> (r: usize)
        ensures
            r == self@,
    {
        self.count
    }

    /// Decrements the counter by `n`.
    pub fn decrby(&mut self, n: usize)
        ensures
            final(self)@ == wrapped(old(self)@ - n),
            n <= old(self)@ ==> final(self)@ == old(self)@ - n,
            n > old(self)@ ==> final(self)@ == old(self)@ - n + usize::MAX + 1,
    {
        proof {
            lemma_wrapped(self.count - n);
        }
        self.count = self.count.wrapping_sub(n);
    }

    /// Increments the counter by `n`.
    pub fn incrby(&mut self, n: usize)
        ensures
            final(self)@ == wrapped(old(self)@ + n),
            old(self)@ + n <= usize::MAX ==> final(self)@ == old(self)@ + n,
            old(self)@ + n > usize::MAX ==> final(self)@ == old(self)@ + n - usize::MAX - 1,
    {
        proof {
            lemma_wrapped(self.count + n);
        }
        self.count = self.count.wrapping_add(n);
    }
}

/// Decrementing by what the counter was incremented by gives back its value, whatever happens to
/// overflow in between.
pub proof fn law_decrement_undoes_increment(value: usize, n: usize)
    ensures
        wrapped(wrapped(value + n) - n) == value,
{
    lemma_wrapped_sum(value + n, -n);
    lemma_wrapped(value as int);
}

/// Incrementing by what the counter was decremented by gives back its value.
pub proof fn law_increment_undoes_decrement(value: usize, n: usize)
    ensures
        wrapped(wrapped(value - n) + n) == value,
{
    lemma_wrapped_sum(value - n, n as int);
    lemma_wrapped(value as int);
}

/// Two changes to a counter commute, so that counting does not depend on the order in which
/// workers start and finish.
pub proof fn law_changes_commute(value: usize, a: int, b: int)
    ensures
        wrapped(wrapped(value + a) + b) == wrapped(wrapped(value + b) + a),
{
    lemma_wrapped_sum(value + a, b);
    lemma_wrapped_sum(value + b, a);
}

/// The value of a counter that starts with `value` and undergoes `changes` one after the other.
pub open spec fn counted(value: int, changes: Seq<int>) -> int {
    changes.fold_left(value, |count: int, change: int| wrapped(count + change))
}

/// The sum of `changes`.
pub open spec fn total(changes: Seq<int>) -> int
    decreases changes.len(),
{
    if changes.len() == 0 {
        0
    } else {
        total(changes.drop_last()) + changes.last()
    }
}

/// No change to a counter is lost: after any number of them its value is what it started with and
/// their sum, wrapped around.
pub proof fn law_no_change_is_lost(value: usize, changes: Seq<int>)
    ensures
        counted(value as int, changes) == wrapped(value + total(changes)),
    decreases changes.len(),
{
    if changes.len() == 0 {
        lemma_wrapped(value as int);
    } else {
        law_no_change_is_lost(value, changes.drop_last());
        lemma_wrapped_sum(value + total(changes.drop_last()), changes.last());
    }
}

/// In whatever order the same changes run, a counter ends with the same value.
pub proof fn law_order_of_changes_does_not_matter(value: usize, a: Seq<int>, b: Seq<int>)
    requires
        a.to_multiset() == b.to_multiset(),
    ensures
        counted(value as int, a) == counted(value as int, b),
{
    let step = |count: int, change: int| wrapped(count + change);
    assert forall|x: int, y: int, count: int| #[trigger]
        step(step(count, x), y) == step(step(count, y), x) by {
        lemma_wrapped_sum(count + x, y);
        lemma_wrapped_sum(count + y, x);
    }
    vstd::seq_lib::lemma_fold_left_permutation(a, b, step, value as int);
}

/// How many bytes the unit of the reported memory holds.
pub const BYTES_PER_KIB: u64 = 1024;

/// The text that reports `memory` bytes in KiB, or `0` if the amount is not known.
pub open spec fn rss_text(memory: Option<u64>) -> Seq<char> {
    match memory {
        Some(bytes) => decimal((bytes / BYTES_PER_KIB) as nat),
        None => "0"@,
    }
}

/// Reports `memory` bytes in KiB, or `0` if the amount is not known.
pub fn rss_kb(memory: Option<u64>) -> (r: String)
    ensures
        r@ == rss_text(memory),
{
    match memory {
        Some(bytes) => decimal_text(bytes / BYTES_PER_KIB),
        None => "0".to_owned(),
    }
}

/// Asks `sysinfo` for the memory of the current process: `get_current_pid`, then `memory` of that
/// process after `refresh_processes_specifics`. What the system answers is left open.
#[verifier::external_body]
pub(crate) fn current_memory() -> (r: Option<u64>) {
    let pid = sysinfo::get_current_pid().ok()?;
    let mut system = sysinfo::System::new();
    system.refresh_processes_specifics(
        sysinfo::ProcessesToUpdate::Some(&[pid]),
        false,
        sysinfo::ProcessRefreshKind::nothing().with_memory(),
    );
    system.process(pid).map(|process| process.memory())
}

/// Whether `memory` is what the system answered when it was asked for the memory of this process.
///
/// It holds of nothing but such an answer.
pub closed spec fn is_memory_reading(memory: Option<u64>) -> bool {
    call_ensures(current_memory, (), memory)
}

/// Asks the system for the memory of the current process.
fn read_memory() -> (r: Option<u64>)
    ensures
        is_memory_reading(r),
{
    let read = current_memory;
    read()
}

/// A memory reading is an answer of the system.
pub(crate) proof fn law_memory_readings_come_from_the_system(memory: Option<u64>)
    requires
        is_memory_reading(memory),
    ensures
        call_ensures(current_memory, (), memory),
{
}

/// Reports the resident memory of the current process in KiB.
pub fn current_process_rss_kb() -> (r: String)
    ensures
        exists|memory: Option<u64>|
            is_memory_reading(memory) && r@ == #[trigger] rss_text(memory),
{
    rss_kb(read_memory())
}

/// The identity of a process: its host, its number and a nonce.
pub open spec fn identity_text(hostname: Seq<char>, pid: u32, nonce: Seq<char>) -> Seq<char> {
    hostname + ":"@ + decimal(pid as nat) + ":"@ + nonce
}

/// Writes the identity of a process.
pub fn identity_of(hostname: &str, pid: u32, nonce: &str) -> (r: String)
    ensures
        r@ == identity_text(hostname@, pid, nonce@),
{
    let mut identity: String = hostname.to_owned();
    identity.append(":");
    identity.append(decimal_text(pid as u64).as_str());
    identity.append(":");
    identity.append(nonce);
    identity
}

/// Whether `identity` is one that the process `pid` on `hostname` can get.
pub open spec fn is_identity(identity: Seq<char>, hostname: Seq<char>, pid: u32) -> bool {
    exists|nonce: Seq<char>|
        is_nonce(nonce) && identity == #[trigger] identity_text(hostname, pid, nonce)
}

/// Whether `identity` is one that was drawn for the process `pid` on `hostname`.
pub open spec fn is_drawn_identity(identity: Seq<char>, hostname: Seq<char>, pid: u32) -> bool {
    exists|nonce: Seq<char>|
        is_drawn_nonce(nonce) && identity == #[trigger] identity_text(hostname, pid, nonce)
}

/// Draws an identity for the process `pid` on `hostname`.
pub fn generate_identity(hostname: &String, pid: u32) -> (r: String)
    ensures
        is_identity(r@, hostname@, pid),
        is_drawn_identity(r@, hostname@, pid),
{
    let bytes: [u8; 12] = draw_bytes();
    let nonce: String = nonce_text(&bytes);
    identity_of(hostname.as_str(), pid, nonce.as_str())
}

/// What the field `info` of a heartbeat holds, in the order in which it is written.
#[derive(Debug)]
pub struct ProcessInfo {
    /// Host.
    pub hostname: String,
    /// Identity of the process.
    pub identity: String,
    /// When the process started.
    pub started_at: Timestamp,
    /// Number of the process.
    pub pid: u32,
    /// Tag of the process.
    pub tag: Option<String>,
    /// How many jobs it works on at once.
    pub concurrency: usize,
    /// Queues it works on.
    pub queues: Vec<String>,
    /// Labels of the process.
    pub labels: Vec<String>,
}

/// A heartbeat.
#[derive(Debug)]
pub struct ProcessStats {
    /// Round-trip time in microseconds.
    pub rtt_us: String,
    /// Whether the process takes no new jobs.
    pub quiet: bool,
    /// How many jobs it works on.
    pub busy: usize,
    /// Unix time of the heartbeat.
    pub beat: i64,
    /// Description of the process.
    pub info: ProcessInfo,
    /// Resident memory in KiB.
    pub rss: String,
}

/// Publishes Sidekiq-compatible process statistics.
#[derive(Debug)]
pub struct StatsPublisher {
    /// Host.
    pub hostname: String,
    /// Identity of the process, under which its statistics are published.
    pub identity: String,
    /// Queues the process works on.
    pub queues: Vec<String>,
    /// Unix time at which the process started.
    pub started_at: i64,
    /// Number of the process.
    pub pid: u32,
    /// How many jobs the process works on at once.
    pub concurrency: usize,
}

/// The value of a field of a heartbeat.
#[derive(Debug)]
pub enum StatValue {
    /// Text.
    Text(String),
    /// A number of jobs.
    Count(usize),
    /// A flag.
    Flag(bool),
    /// A Unix time in seconds.
    UnixTime(i64),
    /// The description of a process, written as JSON.
    Info(ProcessInfo),
}

/// A command to Redis.
#[derive(Debug)]
pub enum StatsCommand {
    /// `HSET key field value ...`.
    Hset {
        /// Key.
        key: String,
        /// Fields and their values in order.
        fields: Vec<(&'static str, StatValue)>,
    },
    /// `EXPIRE key secs`.
    Expire {
        /// Key.
        key: String,
        /// Seconds after which the key expires.
        secs: usize,
    },
    /// `SADD key member`.
    Sadd {
        /// Key.
        key: String,
        /// Member.
        member: String,
    },
}

/// Seconds after which statistics expire that are not published again.
pub const STATS_TTL_SECS: usize = 30;

impl ProcessStats {
    /// Whether `fields` are the fields of this heartbeat.
    pub open spec fn has_fields(self, fields: Seq<(&'static str, StatValue)>) -> bool {
        &&& fields.len() == 6
        &&& fields[0].0@ == "rss"@ && fields[0].1 == StatValue::Text(self.rss)
        &&& fields[1].0@ == "rtt_us"@ && fields[1].1 == StatValue::Text(self.rtt_us)
        &&& fields[2].0@ == "busy"@ && fields[2].1 == StatValue::Count(self.busy)
        &&& fields[3].0@ == "quiet"@ && fields[3].1 == StatValue::Flag(self.quiet)
        &&& fields[4].0@ == "beat"@ && fields[4].1 == StatValue::UnixTime(self.beat)
        &&& fields[5].0@ == "info"@ && fields[5].1 == StatValue::Info(self.info)
    }

    /// Whether `commands` publish this heartbeat under `identity`: they write its fields, let them
    /// expire, and list the process.
    pub open spec fn is_published_by(self, identity: String, commands: Seq<StatsCommand>) -> bool {
        &&& commands.len() == 3
        &&& commands[0] matches StatsCommand::Hset { key, fields } && key == identity
            && self.has_fields(fields@)
        &&& commands[1] == StatsCommand::Expire { key: identity, secs: STATS_TTL_SECS }
        &&& commands[2] matches StatsCommand::Sadd { key, member } && key@ == "processes"@
            && member == identity
    }

    /// Returns the commands that publish this heartbeat under `identity`, to be run in order.
    pub fn into_commands(self, identity: &String) -> (r: Vec<StatsCommand>)
        ensures
            self.is_published_by(*identity, r@),
    {
        let mut fields: Vec<(&'static str, StatValue)> = Vec::new();
        fields.push(("rss", StatValue::Text(self.rss)));
        fields.push(("rtt_us", StatValue::Text(self.rtt_us)));
        fields.push(("busy", StatValue::Count(self.busy)));
        fields.push(("quiet", StatValue::Flag(self.quiet)));
        fields.push(("beat", StatValue::UnixTime(self.beat)));
        fields.push(("info", StatValue::Info(self.info)));
        let mut commands: Vec<StatsCommand> = Vec::new();
        commands.push(StatsCommand::Hset { key: identity.clone(), fields });
        commands.push(StatsCommand::Expire { key: identity.clone(), secs: STATS_TTL_SECS });
        commands.push(StatsCommand::Sadd { key: "processes".to_owned(), member: identity.clone() });
        commands
    }
}

impl StatsPublisher {
    /// Whether this publishes for the process `pid` on `hostname` with these queues and this
    /// concurrency.
    pub open spec fn describes(
        self,
        hostname: String,
        queues: Vec<String>,
        concurrency: usize,
        pid: u32,
    ) -> bool {
        &&& self.hostname == hostname
        &&& self.queues == queues
        &&& self.concurrency == concurrency
        &&& self.pid == pid
    }

    /// Creates a stats publisher with the given identity and start.
    pub fn with_identity(
        hostname: String,
        queues: Vec<String>,
        concurrency: usize,
        pid: u32,
        identity: String,
        started_at: i64,
    ) -> (r: Self)
        ensures
            r.describes(hostname, queues, concurrency, pid),
            r.identity == identity,
            r.started_at == started_at,
    {
        StatsPublisher { hostname, identity, queues, started_at, pid, concurrency }
    }

    /// Creates a stats publisher for the processor of the process `pid`, which starts now.
    #[must_use]
    pub fn new(hostname: String, queues: Vec<String>, concurrency: usize, pid: u32) -> (r: Self)
        ensures
            r.describes(hostname, queues, concurrency, pid),
            is_identity(r.identity@, hostname@, pid),
            is_drawn_identity(r.identity@, hostname@, pid),
            0 <= r.started_at <= MAX_UTC_SECS,
            is_clock_second(r.started_at),
    {
        let identity: String = generate_identity(&hostname, pid);
        Self::with_identity(hostname, queues, concurrency, pid, identity, read_clock().secs)
    }

    /// Whether `stats` is the heartbeat at the Unix time `beat` of a process that works on `busy`
    /// jobs and reports `rss`.
    pub open spec fn is_heartbeat(
        self,
        stats: ProcessStats,
        busy: usize,
        rss: Seq<char>,
        beat: i64,
    ) -> bool {
        &&& stats.rtt_us@ == "0"@
        &&& !stats.quiet
        &&& stats.busy == busy
        &&& stats.beat == beat
        &&& stats.rss@ == rss
        &&& stats.info.hostname == self.hostname
        &&& stats.info.identity == self.identity
        &&& stats.info.started_at == Timestamp::Seconds(self.started_at)
        &&& stats.info.pid == self.pid
        &&& stats.info.tag is None
        &&& stats.info.concurrency == self.concurrency
        &&& stats.info.queues@ == self.queues@
        &&& stats.info.labels@.len() == 0
    }

    /// Creates the heartbeat at the Unix time `beat` of a process that reports `rss`.
    pub fn create_process_stats(&self, busy_jobs: &Counter, rss: String, beat: i64) -> (r:
        ProcessStats)
        ensures
            self.is_heartbeat(r, busy_jobs@, rss@, beat),
    {
        ProcessStats {
            rtt_us: "0".to_owned(),
            busy: busy_jobs.value(),
            quiet: false,
            rss,
            beat,
            info: ProcessInfo {
                concurrency: self.concurrency,
                hostname: self.hostname.clone(),
                identity: self.identity.clone(),
                queues: copy_texts(&self.queues),
                started_at: Timestamp::Seconds(self.started_at),
                pid: self.pid,
                labels: Vec::new(),
                tag: None,
            },
        }
    }

    /// Returns the commands that publish one heartbeat now, to be run in order.
    pub fn publish_stats(&self, busy_jobs: &Counter) -> (r: Vec<StatsCommand>)
        ensures
            exists|stats: ProcessStats, memory: Option<u64>, beat: i64|
                {
                    &&& #[trigger] self.is_heartbeat(stats, busy_jobs@, rss_text(memory), beat)
                    &&& is_memory_reading(memory)
                    &&& 0 <= beat <= MAX_UTC_SECS
                    &&& is_clock_second(beat)
                    &&& stats.is_published_by(self.identity, r@)
                },
    {
        let rss: String = current_process_rss_kb();
        let stats: ProcessStats = self.create_process_stats(busy_jobs, rss, read_clock().secs);
        stats.into_commands(&self.identity)
    }
}

/// All that a heartbeat writes carries the identity of its process: the key of its fields, the key
/// that expires, the member that lists the process, and the description.
pub proof fn law_heartbeat_is_filed_under_its_identity(
    publisher: StatsPublisher,
    stats: ProcessStats,
    busy: usize,
    rss: Seq<char>,
    beat: i64,
    commands: Seq<StatsCommand>,
)
    requires
        publisher.is_heartbeat(stats, busy, rss, beat),
        stats.is_published_by(publisher.identity, commands),
    ensures
        commands[0]->Hset_key == publisher.identity,
        commands[0]->fields@[5].1->Info_0.identity == publisher.identity,
        commands[1]->Expire_key == publisher.identity,
        commands[2]->member == publisher.identity,
{
}

/// A counter shows what it was created with.
pub proof fn law_counter_shows_its_start(n: usize, counter: Counter, value: usize)
    requires
        call_ensures(Counter::new, (n,), counter),
        call_ensures(Counter::value, (&counter,), value),
    ensures
        value == n,
{
}

/// A counter changes by exactly what it is told to, and by a full turn of `usize` less or more where
/// it would leave its range.
pub proof fn law_counter_counts_exactly(value: usize, n: usize)
    ensures
        value + n <= usize::MAX ==> wrapped(value + n) == value + n,
        value + n > usize::MAX ==> wrapped(value + n) == value + n - usize::MAX - 1,
        n <= value ==> wrapped(value - n) == value - n,
        n > value ==> wrapped(value - n) == value - n + usize::MAX + 1,
{
    lemma_wrapped(value + n);
    lemma_wrapped(value - n);
}

/// Memory is reported as the number of whole KiB, and as zero if it is not known.
pub proof fn law_memory_is_reported_in_kib(
    bytes: u64,
    text: String,
    kib: String,
    unknown: String,
)
    requires
        call_ensures(rss_kb, (Some(bytes),), text),
        call_ensures(decimal_text, ((bytes / 1024) as u64,), kib),
        call_ensures(rss_kb, (None,), unknown),
    ensures
        text@ == kib@,
        unknown@ == "0"@,
{
}

/// The memory that is reported of the current process is what the system answered.
pub proof fn law_reported_memory_is_the_systems(text: String) -> (memory: Option<u64>)
    requires
        call_ensures(current_process_rss_kb, (), text),
    ensures
        is_memory_reading(memory),
        forall|report: String| #[trigger]
            call_ensures(rss_kb, (memory,), report) ==> report@ == text@,
{
    choose|memory: Option<u64>| is_memory_reading(memory) && text@ == #[trigger] rss_text(memory)
}

/// An identity is the host, the number of the process in decimal and the nonce, with colons between
/// them.
pub proof fn law_identity_names_the_process(
    hostname: &str,
    pid: u32,
    nonce: &str,
    identity: String,
    number: String,
)
    requires
        call_ensures(identity_of, (hostname, pid, nonce), identity),
        call_ensures(decimal_text, (pid as u64,), number),
    ensures
        identity@ == hostname@ + ":"@ + number@ + ":"@ + nonce@,
{
}

/// A generated identity is made of the host, the number of the process and a drawn nonce.
pub proof fn law_generated_identity_has_a_drawn_nonce(
    hostname: String,
    pid: u32,
    identity: String,
    number: String,
) -> (nonce: Seq<char>)
    requires
        call_ensures(generate_identity, (&hostname, pid), identity),
        call_ensures(decimal_text, (pid as u64,), number),
    ensures
        is_drawn_nonce(nonce),
        nonce.len() == 24,
        identity@ == hostname@ + ":"@ + number@ + ":"@ + nonce,
{
    choose|nonce: Seq<char>|
        is_drawn_nonce(nonce) && identity@ == #[trigger] identity_text(hostname@, pid, nonce)
}

/// A publisher keeps the description of its process, starts when the clock shows so, and has a drawn
/// identity.
pub proof fn law_publisher_describes_its_process(
    hostname: String,
    queues: Vec<String>,
    concurrency: usize,
    pid: u32,
    publisher: StatsPublisher,
) -> (now: UtcTime)
    requires
        call_ensures(StatsPublisher::new, (hostname, queues, concurrency, pid), publisher),
    ensures
        publisher.hostname == hostname,
        publisher.queues == queues,
        publisher.concurrency == concurrency,
        publisher.pid == pid,
        is_drawn_identity(publisher.identity@, hostname@, pid),
        is_clock_reading(now),
        publisher.started_at == now.secs,
{
    choose|now: UtcTime| #[trigger] is_clock_reading(now) && now.secs == publisher.started_at
}

/// A publisher with a given identity and start keeps them and the description of its process.
pub proof fn law_publisher_keeps_its_identity(
    hostname: String,
    queues: Vec<String>,
    concurrency: usize,
    pid: u32,
    identity: String,
    started_at: i64,
    publisher: StatsPublisher,
)
    requires
        call_ensures(
            StatsPublisher::with_identity,
            (hostname, queues, concurrency, pid, identity, started_at),
            publisher,
        ),
    ensures
        publisher.hostname == hostname,
        publisher.queues == queues,
        publisher.concurrency == concurrency,
        publisher.pid == pid,
        publisher.identity == identity,
        publisher.started_at == started_at,
{
}

/// A heartbeat carries the jobs in progress, the memory and the time it is given, and describes its
/// process.
pub proof fn law_heartbeat_carries_what_it_is_given(
    publisher: StatsPublisher,
    busy_jobs: Counter,
    busy: usize,
    rss: String,
    beat: i64,
    stats: ProcessStats,
)
    requires
        call_ensures(Counter::value, (&busy_jobs,), busy),
        call_ensures(
            StatsPublisher::create_process_stats,
            (&publisher, &busy_jobs, rss, beat),
            stats,
        ),
    ensures
        stats.rtt_us@ == "0"@,
        !stats.quiet,
        stats.busy == busy,
        stats.beat == beat,
        stats.rss@ == rss@,
        stats.info.hostname == publisher.hostname,
        stats.info.identity == publisher.identity,
        stats.info.started_at == Timestamp::Seconds(publisher.started_at),
        stats.info.pid == publisher.pid,
        stats.info.tag is None,
        stats.info.concurrency == publisher.concurrency,
        stats.info.queues@ == publisher.queues@,
        stats.info.labels@.len() == 0,
{
}

/// A heartbeat is written under the identity with each value under its own name, expires after half
/// a minute, and its process is listed.
pub proof fn law_heartbeat_is_written_field_by_field(
    stats: ProcessStats,
    identity: String,
    commands: Vec<StatsCommand>,
)
    requires
        call_ensures(ProcessStats::into_commands, (stats, &identity), commands),
    ensures
        commands@.len() == 3,
        commands@[0] matches StatsCommand::Hset { key, fields } && {
            &&& key == identity
            &&& fields@.len() == 6
            &&& fields@[0].0@ == "rss"@ && fields@[0].1 == StatValue::Text(stats.rss)
            &&& fields@[1].0@ == "rtt_us"@ && fields@[1].1 == StatValue::Text(stats.rtt_us)
            &&& fields@[2].0@ == "busy"@ && fields@[2].1 == StatValue::Count(stats.busy)
            &&& fields@[3].0@ == "quiet"@ && fields@[3].1 == StatValue::Flag(stats.quiet)
            &&& fields@[4].0@ == "beat"@ && fields@[4].1 == StatValue::UnixTime(stats.beat)
            &&& fields@[5].0@ == "info"@ && fields@[5].1 == StatValue::Info(stats.info)
        },
        commands@[1] matches StatsCommand::Expire { key, secs } && key == identity && secs == 30,
        commands@[2] matches StatsCommand::Sadd { key, member } && key@ == "processes"@ && member
            == identity,
{
}

/// A published heartbeat carries the time that the clock showed, the memory that the system
/// answered, the jobs in progress and the description of the process, under its identity.
pub proof fn law_published_heartbeat_is_of_now(
    publisher: StatsPublisher,
    busy_jobs: Counter,
    busy: usize,
    commands: Vec<StatsCommand>,
) -> (reading: (UtcTime, Option<u64>))
    requires
        call_ensures(Counter::value, (&busy_jobs,), busy),
        call_ensures(StatsPublisher::publish_stats, (&publisher, &busy_jobs), commands),
    ensures
        is_clock_reading(reading.0),
        is_memory_reading(reading.1),
        commands@.len() == 3,
        commands@[0] matches StatsCommand::Hset { key, fields } && {
            &&& key == publisher.identity
            &&& fields@.len() == 6
            &&& fields@[0].0@ == "rss"@ && fields@[0].1 is Text
            &&& forall|report: String| #[trigger]
                call_ensures(rss_kb, (reading.1,), report) ==> fields@[0].1->Text_0@ == report@
            &&& fields@[1].0@ == "rtt_us"@ && fields@[1].1 is Text && fields@[1].1->Text_0@ == "0"@
            &&& fields@[2].0@ == "busy"@ && fields@[2].1 == StatValue::Count(busy)
            &&& fields@[3].0@ == "quiet"@ && fields@[3].1 == StatValue::Flag(false)
            &&& fields@[4].0@ == "beat"@ && fields@[4].1 == StatValue::UnixTime(reading.0.secs)
            &&& fields@[5].0@ == "info"@ && fields@[5].1 is Info
            &&& fields@[5].1->Info_0.hostname == publisher.hostname
            &&& fields@[5].1->Info_0.identity == publisher.identity
            &&& fields@[5].1->Info_0.started_at == Timestamp::Seconds(publisher.started_at)
            &&& fields@[5].1->Info_0.pid == publisher.pid
            &&& fields@[5].1->Info_0.tag is None
            &&& fields@[5].1->Info_0.concurrency == publisher.concurrency
            &&& fields@[5].1->Info_0.queues@ == publisher.queues@
            &&& fields@[5].1->Info_0.labels@.len() == 0
        },
        commands@[1] matches StatsCommand::Expire { key, secs } && key == publisher.identity
            && secs == 30,
        commands@[2] matches StatsCommand::Sadd { key, member } && key@ == "processes"@ && member
            == publisher.identity,
{
    let (stats, memory, beat) = choose|stats: ProcessStats, memory: Option<u64>, beat: i64|
        {
            &&& #[trigger] publisher.is_heartbeat(stats, busy_jobs@, rss_text(memory), beat)
            &&& is_memory_reading(memory)
            &&& 0 <= beat <= MAX_UTC_SECS
            &&& is_clock_second(beat)
            &&& stats.is_published_by(publisher.identity, commands@)
        };
    let now = choose|now: UtcTime| #[trigger] is_clock_reading(now) && now.secs == beat;
    (now, memory)
}

} // verus!
