//! The per-device timeline: a ring of the most recent events, and the text
//! of its dump after a failure.
use crate::clock::{instant_now, millis_since, wall_clock_ms, wall_clock_rfc3339};
use crate::text::{decimal, pad_left, push_decimal, push_decimal_padded};
use std::collections::VecDeque;
use vstd::prelude::*;
use vstd::string::*;

verus! {

/// How many events the timeline keeps.
pub const EVENT_LOG_CAPACITY: usize = 100;

/// How many of the last events the dump shows the time between.
pub const TIMING_WINDOW: usize = 10;

/// What happened to a device.
#[derive(Clone, Debug, PartialEq, Eq)]
pub enum DeviceEventType {
    /// TCP connection established
    Connected,
    /// TCP connection closed (intentional disconnect)
    Disconnected,
    /// Heartbeat sent to device
    HeartbeatSent,
    /// Status poll request sent
    PollSent,
    /// Command sent from MQTT (contains DPS JSON)
    CommandSent(String),
    /// Message received from device (contains command type and payload summary)
    MessageReceived(String),
    /// Error occurred (contains error description)
    Error(String),
    /// Timeout occurred (operation name)
    Timeout(String),
    /// Throttled - command was delayed due to rate limiting
    Throttled { delayed_ms: u64 },
    /// Heartbeat skipped due to recent activity
    HeartbeatSkipped { last_activity_ms: u64 },
    /// Connection attempt started
    ConnectAttempt,
    /// Receive timeout - connection may be stale
    ReceiveTimeout,
}

/// The text of an event kind in a dump.
pub open spec fn event_text(e: DeviceEventType) -> Seq<char> {
    match e {
        DeviceEventType::Connected => "CONNECTED"@,
        DeviceEventType::Disconnected => "DISCONNECTED"@,
        DeviceEventType::HeartbeatSent => "HEARTBEAT_SENT"@,
        DeviceEventType::PollSent => "POLL_SENT"@,
        DeviceEventType::CommandSent(dps) => "COMMAND_SENT: "@ + dps@,
        DeviceEventType::MessageReceived(msg) => "MESSAGE_RECEIVED: "@ + msg@,
        DeviceEventType::Error(e) => "ERROR: "@ + e@,
        DeviceEventType::Timeout(op) => "TIMEOUT: "@ + op@,
        DeviceEventType::Throttled { delayed_ms } => "THROTTLED: delayed "@ + decimal(
            delayed_ms as nat,
        ) + "ms"@,
        DeviceEventType::HeartbeatSkipped { last_activity_ms } => "HEARTBEAT_SKIPPED: last activity "@
            + decimal(last_activity_ms as nat) + "ms ago"@,
        DeviceEventType::ConnectAttempt => "CONNECT_ATTEMPT"@,
        DeviceEventType::ReceiveTimeout => "RECEIVE_TIMEOUT"@,
    }
}

impl DeviceEventType {
    /// The text of this event kind in a dump.
    pub fn describe(&self) -> (r: String)
        ensures
            r@ == event_text(*self),
    {
        match self {
            DeviceEventType::Connected => String::from_str("CONNECTED"),
            DeviceEventType::Disconnected => String::from_str("DISCONNECTED"),
            DeviceEventType::HeartbeatSent => String::from_str("HEARTBEAT_SENT"),
            DeviceEventType::PollSent => String::from_str("POLL_SENT"),
            DeviceEventType::CommandSent(dps) => String::from_str("COMMAND_SENT: ").concat(
                dps.as_str(),
            ),
            DeviceEventType::MessageReceived(msg) => String::from_str("MESSAGE_RECEIVED: ").concat(
                msg.as_str(),
            ),
            DeviceEventType::Error(e) => String::from_str("ERROR: ").concat(e.as_str()),
            DeviceEventType::Timeout(op) => String::from_str("TIMEOUT: ").concat(op.as_str()),
            DeviceEventType::Throttled { delayed_ms } => {
                let mut s = String::from_str("THROTTLED: delayed ");
                push_decimal(&mut s, *delayed_ms);
                s.append("ms");
                s
            },
            DeviceEventType::HeartbeatSkipped { last_activity_ms } => {
                let mut s = String::from_str("HEARTBEAT_SKIPPED: last activity ");
                push_decimal(&mut s, *last_activity_ms);
                s.append("ms ago");
                s
            },
            DeviceEventType::ConnectAttempt => String::from_str("CONNECT_ATTEMPT"),
            DeviceEventType::ReceiveTimeout => String::from_str("RECEIVE_TIMEOUT"),
        }
    }
}

/// One event of the timeline.
#[derive(Clone, Debug)]
pub struct DeviceEvent {
    /// Wall-clock time, in milliseconds since the Unix epoch.
    pub timestamp: u64,
    /// Milliseconds since the timeline started.
    pub instant: u64,
    pub event_type: DeviceEventType,
}

/// The last `cap` events of `s`, or all of them if there are no more.
pub open spec fn keep_recent(s: Seq<DeviceEvent>, cap: nat) -> Seq<DeviceEvent> {
    if s.len() <= cap {
        s
    } else {
        s.subrange(s.len() - cap, s.len() as int)
    }
}

/// The timeline after the events of `added` were recorded, in order, into
/// one that held `start`.
pub open spec fn record_all(start: Seq<DeviceEvent>, added: Seq<DeviceEvent>) -> Seq<DeviceEvent>
    decreases added.len(),
{
    if added.len() == 0 {
        start
    } else {
        keep_recent(
            record_all(start, added.drop_last()).push(added.last()),
            EVENT_LOG_CAPACITY as nat,
        )
    }
}

/// Keeping the recent events of the recent events is keeping the recent events.
proof fn lemma_keep_recent_push(s: Seq<DeviceEvent>, e: DeviceEvent, cap: nat)
    requires
        cap > 0,
    ensures
        keep_recent(keep_recent(s, cap).push(e), cap) == keep_recent(s.push(e), cap),
{
    if s.len() > cap {
        assert(keep_recent(keep_recent(s, cap).push(e), cap) =~= keep_recent(s.push(e), cap));
    }
}

/// Recording events one by one into an empty timeline keeps the most recent
/// of them, as many as it holds: after more than that many, exactly that
/// many remain, and they are the latest, in order.
pub proof fn lemma_ring_keeps_most_recent(added: Seq<DeviceEvent>)
    ensures
        record_all(Seq::empty(), added) == keep_recent(added, EVENT_LOG_CAPACITY as nat),
        added.len() > EVENT_LOG_CAPACITY ==> record_all(Seq::empty(), added).len()
            == EVENT_LOG_CAPACITY && record_all(Seq::empty(), added) == added.subrange(
            added.len() - EVENT_LOG_CAPACITY,
            added.len() as int,
        ),
    decreases added.len(),
{
    if added.len() > 0 {
        lemma_ring_keeps_most_recent(added.drop_last());
        lemma_keep_recent_push(added.drop_last(), added.last(), EVENT_LOG_CAPACITY as nat);
        assert(added.drop_last().push(added.last()) =~= added);
    }
}

/// The event kinds that a dump counts.
pub enum Counted {
    Heartbeats,
    Polls,
    Commands,
    Errors,
    Timeouts,
    Throttled,
}

/// Whether an event kind is counted under `c`.
pub open spec fn counted_as(e: DeviceEventType, c: Counted) -> bool {
    match c {
        Counted::Heartbeats => e is HeartbeatSent,
        Counted::Polls => e is PollSent,
        Counted::Commands => e is CommandSent,
        Counted::Errors => e is Error,
        Counted::Timeouts => e is Timeout,
        Counted::Throttled => e is Throttled,
    }
}

/// How many events of `s` are counted under `c`.
pub open spec fn tally(s: Seq<DeviceEvent>, c: Counted) -> nat
    decreases s.len(),
{
    if s.len() == 0 {
        0
    } else {
        tally(s.drop_last(), c) + if counted_as(s.last().event_type, c) {
            1nat
        } else {
            0nat
        }
    }
}

proof fn lemma_tally_bounded(s: Seq<DeviceEvent>, c: Counted)
    ensures
        tally(s, c) <= s.len(),
    decreases s.len(),
{
    if s.len() > 0 {
        lemma_tally_bounded(s.drop_last(), c);
    }
}

/// The counts of a timeline's event kinds.
#[derive(Clone, Copy, Debug, PartialEq, Eq, Structural)]
pub struct EventCounts {
    pub heartbeats: u64,
    pub polls: u64,
    pub commands: u64,
    pub errors: u64,
    pub timeouts: u64,
    pub throttled: u64,
}

/// The counts of the event kinds of `s`.
pub open spec fn counts_of(s: Seq<DeviceEvent>) -> EventCounts {
    EventCounts {
        heartbeats: tally(s, Counted::Heartbeats) as u64,
        polls: tally(s, Counted::Polls) as u64,
        commands: tally(s, Counted::Commands) as u64,
        errors: tally(s, Counted::Errors) as u64,
        timeouts: tally(s, Counted::Timeouts) as u64,
        throttled: tally(s, Counted::Throttled) as u64,
    }
}

/// A rule of `n` copies of `c`.
pub open spec fn rule(c: char) -> Seq<char> {
    Seq::new(80, |_i: int| c)
}

/// The time of day of a wall-clock time in milliseconds since the epoch, as
/// `HH:MM:SS.mmm` in UTC.
pub open spec fn clock_text(ms: u64) -> Seq<char> {
    let day = ms as nat % 86_400_000;
    pad_left(decimal(day / 3_600_000), 2, '0') + ":"@ + pad_left(decimal(day / 60_000 % 60), 2, '0')
        + ":"@ + pad_left(decimal(day / 1000 % 60), 2, '0') + "."@ + pad_left(
        decimal(day % 1000),
        3,
        '0',
    )
}

/// The dump line of event `i`.
pub open spec fn event_line(i: nat, e: DeviceEvent) -> Seq<char> {
    "["@ + pad_left(decimal(i), 4, '0') + "] +"@ + pad_left(decimal(e.instant as nat), 8, ' ')
        + "ms | "@ + clock_text(e.timestamp) + " | "@ + event_text(e.event_type)
}

/// The dump line of the time from `earlier` to `later`.
pub open spec fn timing_line(earlier: DeviceEvent, later: DeviceEvent) -> Seq<char> {
    let delta: nat = if later.instant >= earlier.instant {
        (later.instant - earlier.instant) as nat
    } else {
        0
    };
    "  "@ + event_text(earlier.event_type) + " -> "@ + event_text(later.event_type) + " : "@
        + decimal(delta) + "ms"@
}

/// The lines that give the time between each two consecutive events among
/// the last `TIMING_WINDOW`, newest first; none for fewer than two events.
pub open spec fn timing_lines(s: Seq<DeviceEvent>) -> Seq<Seq<char>> {
    let n = s.len() as int;
    let w: int = if n < TIMING_WINDOW {
        n
    } else {
        TIMING_WINDOW as int
    };
    if n < 2 {
        Seq::empty()
    } else {
        seq![rule('-'), "INTER-EVENT TIMING (last 10):"@] + Seq::new(
            (w - 1) as nat,
            |k: int| timing_line(s[n - 2 - k], s[n - 1 - k]),
        )
    }
}

/// The summary lines of a dump.
pub open spec fn summary_lines(c: EventCounts) -> Seq<Seq<char>> {
    seq![
        rule('-'),
        "SUMMARY:"@,
        "  Heartbeats: "@ + decimal(c.heartbeats as nat),
        "  Polls: "@ + decimal(c.polls as nat),
        "  Commands: "@ + decimal(c.commands as nat),
        "  Errors: "@ + decimal(c.errors as nat),
        "  Timeouts: "@ + decimal(c.timeouts as nat),
        "  Throttled: "@ + decimal(c.throttled as nat),
    ]
}

/// The header lines of a dump.
pub open spec fn header_lines(
    name: Seq<char>,
    id: Seq<char>,
    version: Seq<char>,
    reason: Seq<char>,
    time: Seq<char>,
    count: nat,
) -> Seq<Seq<char>> {
    seq![
        Seq::empty(),
        rule('='),
        "DEVICE FAILURE TIMELINE DUMP"@,
        rule('='),
        "Device Name: "@ + name,
        "Device ID: "@ + id,
        "Protocol Version: "@ + version,
        "Failure Reason: "@ + reason,
        "Dump Time: "@ + time,
        "Total Events: "@ + decimal(count),
        rule('-'),
        "TIMELINE (oldest first):"@,
        rule('-'),
    ]
}

/// The lines of a dump of the timeline `s` of a device.
pub open spec fn dump_lines(
    name: Seq<char>,
    id: Seq<char>,
    version: Seq<char>,
    reason: Seq<char>,
    time: Seq<char>,
    s: Seq<DeviceEvent>,
) -> Seq<Seq<char>> {
    header_lines(name, id, version, reason, time, s.len()) + Seq::new(
        s.len(),
        |i: int| event_line(i as nat, s[i]),
    ) + summary_lines(counts_of(s)) + timing_lines(s) + seq![rule('='), Seq::empty()]
}

/// The texts of a list of lines.
pub open spec fn texts(lines: Seq<String>) -> Seq<Seq<char>> {
    lines.map_values(|l: String| l@)
}

/// Appends a rule of 80 copies of `c`.
fn push_rule(s: &mut String, c: char)
    ensures
        final(s)@ == old(s)@ + rule(c),
{
    let mut i: usize = 0;
    while i < 80
        invariant
            i <= 80,
            s@ == old(s)@ + Seq::new(i as nat, |_i: int| c),
        decreases 80 - i,
    {
        crate::text::push_char(s, c);
        i = i + 1;
        assert(s@ =~= old(s)@ + Seq::new(i as nat, |_i: int| c));
    }
}

/// A rule of 80 copies of `c`.
fn rule_line(c: char) -> (r: String)
    ensures
        r@ == rule(c),
{
    let mut s = String::new();
    push_rule(&mut s, c);
    assert(s@ =~= rule(c));
    s
}

/// The text of a label followed by a value.
fn labelled(label: &str, value: &str) -> (r: String)
    ensures
        r@ == label@ + value@,
{
    String::from_str(label).concat(value)
}

/// The text of a label followed by a number.
fn labelled_count(label: &str, n: u64) -> (r: String)
    ensures
        r@ == label@ + decimal(n as nat),
{
    let mut s = String::from_str(label);
    push_decimal(&mut s, n);
    s
}

/// The time of day of a wall-clock time, as `HH:MM:SS.mmm` in UTC.
pub fn clock_time(ms: u64) -> (r: String)
    ensures
        r@ == clock_text(ms),
{
    let day = ms % 86_400_000;
    let mut s = String::new();
    push_decimal_padded(&mut s, day / 3_600_000, 2, '0');
    s.append(":");
    push_decimal_padded(&mut s, day / 60_000 % 60, 2, '0');
    s.append(":");
    push_decimal_padded(&mut s, day / 1000 % 60, 2, '0');
    s.append(".");
    push_decimal_padded(&mut s, day % 1000, 3, '0');
    s
}

/// The dump line of event `i`.
fn event_line_text(i: usize, e: &DeviceEvent) -> (r: String)
    ensures
        r@ == event_line(i as nat, *e),
{
    let mut s = String::from_str("[");
    push_decimal_padded(&mut s, i as u64, 4, '0');
    s.append("] +");
    push_decimal_padded(&mut s, e.instant, 8, ' ');
    s.append("ms | ");
    let clock = clock_time(e.timestamp);
    s.append(clock.as_str());
    s.append(" | ");
    let kind = e.event_type.describe();
    s.append(kind.as_str());
    s
}

/// The dump line of the time from `earlier` to `later`.
fn timing_line_text(earlier: &DeviceEvent, later: &DeviceEvent) -> (r: String)
    ensures
        r@ == timing_line(*earlier, *later),
{
    let delta = if later.instant >= earlier.instant {
        later.instant - earlier.instant
    } else {
        0
    };
    let mut s = String::from_str("  ");
    let first = earlier.event_type.describe();
    s.append(first.as_str());
    s.append(" -> ");
    let second = later.event_type.describe();
    s.append(second.as_str());
    s.append(" : ");
    push_decimal(&mut s, delta);
    s.append("ms");
    s
}

/// The timeline of one device: its most recent events, oldest first.
#[derive(Debug)]
pub struct DeviceEventLog {
    device_name: String,
    device_id: String,
    device_version: String,
    events: VecDeque<DeviceEvent>,
    /// Monotonic start time for calculating relative timestamps
    start_instant: tokio::time::Instant,
}

impl DeviceEventLog {
    /// The events held, oldest first.
    pub closed spec fn events_view(&self) -> Seq<DeviceEvent> {
        self.events@
    }

    /// The name, id and protocol version of the device.
    pub closed spec fn device_view(&self) -> (Seq<char>, Seq<char>, Seq<char>) {
        (self.device_name@, self.device_id@, self.device_version@)
    }

    /// An empty timeline for a device, started now.
    pub fn new(device_name: String, device_id: String, device_version: String) -> (r: Self)
        ensures
            r.events_view() == Seq::<DeviceEvent>::empty(),
            r.device_view() == (device_name@, device_id@, device_version@),
    {
        DeviceEventLog {
            device_name,
            device_id,
            device_version,
            events: VecDeque::with_capacity(EVENT_LOG_CAPACITY),
            start_instant: instant_now(),
        }
    }

    /// Appends an event, dropping the oldest when the timeline is full.
    pub fn record(&mut self, event: DeviceEvent)
        ensures
            final(self).events_view() == keep_recent(
                old(self).events_view().push(event),
                EVENT_LOG_CAPACITY as nat,
            ),
            final(self).device_view() == old(self).device_view(),
    {
        let ghost start = self.events@;
        while self.events.len() >= EVENT_LOG_CAPACITY
            invariant
                self.events@.len() <= start.len(),
                self.events@ == start.subrange(start.len() - self.events@.len(), start.len() as int),
                start.len() >= EVENT_LOG_CAPACITY ==> self.events@.len() >= EVENT_LOG_CAPACITY - 1,
                start.len() < EVENT_LOG_CAPACITY ==> self.events@.len() == start.len(),
                start == old(self).events@,
                self.device_view() == old(self).device_view(),
            decreases self.events@.len(),
        {
            self.events.pop_front();
        }
        let ghost kept = self.events@;
        self.events.push_back(event);
        assert(self.events@ == kept.push(event));
        proof {
            if start.len() >= EVENT_LOG_CAPACITY {
                assert(kept =~= start.subrange(
                    start.len() + 1 - EVENT_LOG_CAPACITY,
                    start.len() as int,
                ));
            } else {
                assert(kept =~= start);
            }
        }
        assert(self.events@ =~= keep_recent(
            old(self).events_view().push(event),
            EVENT_LOG_CAPACITY as nat,
        ));
    }

    /// Appends an event of the given kind, stamped with the wall-clock time
    /// and the time since the timeline started.
    pub fn log(&mut self, event_type: DeviceEventType)
        ensures
            exists|e: DeviceEvent|
                e.event_type == event_type && final(self).events_view() == keep_recent(
                    #[trigger] old(self).events_view().push(e),
                    EVENT_LOG_CAPACITY as nat,
                ),
            final(self).device_view() == old(self).device_view(),
    {
        let event = DeviceEvent {
            timestamp: wall_clock_ms(),
            instant: millis_since(&self.start_instant),
            event_type,
        };
        let ghost e = event;
        self.record(event);
        assert(final(self).events_view() == keep_recent(
            old(self).events_view().push(e),
            EVENT_LOG_CAPACITY as nat,
        ));
    }

    /// The number of events held.
    pub fn len(&self) -> (r: usize)
        ensures
            r == self.events_view().len(),
    {
        self.events.len()
    }

    /// Event `i`, counted from the oldest.
    pub fn event(&self, i: usize) -> (r: &DeviceEvent)
        requires
            i < self.events_view().len(),
        ensures
            *r == self.events_view()[i as int],
    {
        &self.events[i]
    }

    /// The counts of the event kinds held.
    pub fn summary(&self) -> (r: EventCounts)
        ensures
            r == counts_of(self.events_view()),
    {
        let n = self.events.len();
        let mut c = EventCounts {
            heartbeats: 0,
            polls: 0,
            commands: 0,
            errors: 0,
            timeouts: 0,
            throttled: 0,
        };
        let mut i: usize = 0;
        while i < n
            invariant
                i <= n,
                n == self.events@.len(),
                c == counts_of(self.events@.take(i as int)),
            decreases n - i,
        {
            let ghost before = self.events@.take(i as int);
            let ghost after = self.events@.take(i + 1);
            assert(after.drop_last() =~= before);
            proof {
                lemma_tally_bounded(before, Counted::Heartbeats);
                lemma_tally_bounded(before, Counted::Polls);
                lemma_tally_bounded(before, Counted::Commands);
                lemma_tally_bounded(before, Counted::Errors);
                lemma_tally_bounded(before, Counted::Timeouts);
                lemma_tally_bounded(before, Counted::Throttled);
            }
            match &self.events[i].event_type {
                DeviceEventType::HeartbeatSent => c.heartbeats = c.heartbeats + 1,
                DeviceEventType::PollSent => c.polls = c.polls + 1,
                DeviceEventType::CommandSent(_) => c.commands = c.commands + 1,
                DeviceEventType::Error(_) => c.errors = c.errors + 1,
                DeviceEventType::Timeout(_) => c.timeouts = c.timeouts + 1,
                DeviceEventType::Throttled { .. } => c.throttled = c.throttled + 1,
                _ => {},
            }
            i = i + 1;
        }
        assert(self.events@.take(n as int) =~= self.events@);
        c
    }

    /// The lines of a dump of this timeline after a failure: a banner with
    /// the device, the reason and the time; one line per event; the counts of
    /// heartbeats, polls, commands, errors, timeouts and throttles; and the
    /// time between the last events.
    pub fn dump_timeline(&self, failure_reason: &str) -> (r: Vec<String>)
        ensures
            exists|time: Seq<char>|
                texts(r@) == dump_lines(
                    self.device_view().0,
                    self.device_view().1,
                    self.device_view().2,
                    failure_reason@,
                    time,
                    self.events_view(),
                ),
    {
        let time = wall_clock_rfc3339();
        self.dump_lines_at(failure_reason, time.as_str())
    }

    /// The lines of a dump of this timeline, made at the given time.
    pub fn dump_lines_at(&self, failure_reason: &str, time: &str) -> (r: Vec<String>)
        ensures
            texts(r@) == dump_lines(
                self.device_view().0,
                self.device_view().1,
                self.device_view().2,
                failure_reason@,
                time@,
                self.events_view(),
            ),
    {
        let ghost s = self.events@;
        let n = self.events.len();
        let mut lines: Vec<String> = Vec::new();
        lines.push(String::new());
        lines.push(rule_line('='));
        lines.push(String::from_str("DEVICE FAILURE TIMELINE DUMP"));
        lines.push(rule_line('='));
        lines.push(labelled("Device Name: ", self.device_name.as_str()));
        lines.push(labelled("Device ID: ", self.device_id.as_str()));
        lines.push(labelled("Protocol Version: ", self.device_version.as_str()));
        lines.push(labelled("Failure Reason: ", failure_reason));
        lines.push(labelled("Dump Time: ", time));
        lines.push(labelled_count("Total Events: ", n as u64));
        lines.push(rule_line('-'));
        lines.push(String::from_str("TIMELINE (oldest first):"));
        lines.push(rule_line('-'));
        let ghost head = header_lines(
            self.device_name@,
            self.device_id@,
            self.device_version@,
            failure_reason@,
            time@,
            n as nat,
        );
        assert(texts(lines@) =~= head);
        let mut i: usize = 0;
        while i < n
            invariant
                i <= n,
                n == s.len(),
                s == self.events@,
                texts(lines@) == head + Seq::new(i as nat, |j: int| event_line(j as nat, s[j])),
            decreases n - i,
        {
            let line = event_line_text(i, &self.events[i]);
            let ghost prev = texts(lines@);
            let ghost text = line@;
            lines.push(line);
            assert(texts(lines@) =~= prev.push(text));
            i = i + 1;
            assert(texts(lines@) =~= head + Seq::new(
                i as nat,
                |j: int| event_line(j as nat, s[j]),
            ));
        }
        let ghost with_events = texts(lines@);
        let c = self.summary();
        lines.push(rule_line('-'));
        lines.push(String::from_str("SUMMARY:"));
        lines.push(labelled_count("  Heartbeats: ", c.heartbeats));
        lines.push(labelled_count("  Polls: ", c.polls));
        lines.push(labelled_count("  Commands: ", c.commands));
        lines.push(labelled_count("  Errors: ", c.errors));
        lines.push(labelled_count("  Timeouts: ", c.timeouts));
        lines.push(labelled_count("  Throttled: ", c.throttled));
        assert(texts(lines@) =~= with_events + summary_lines(c));
        let ghost with_summary = texts(lines@);
        if n >= 2 {
            lines.push(rule_line('-'));
            lines.push(String::from_str("INTER-EVENT TIMING (last 10):"));
            let w: usize = if n < TIMING_WINDOW {
                n
            } else {
                TIMING_WINDOW
            };
            let ghost top = with_summary + seq![rule('-'), "INTER-EVENT TIMING (last 10):"@];
            assert(texts(lines@) =~= top);
            let mut k: usize = 0;
            while k + 1 < w
                invariant
                    2 <= n,
                    n == s.len(),
                    s == self.events@,
                    w <= n,
                    w <= TIMING_WINDOW,
                    k + 1 <= w,
                    texts(lines@) == top + Seq::new(
                        k as nat,
                        |j: int| timing_line(s[n - 2 - j], s[n - 1 - j]),
                    ),
                decreases w - k,
            {
                let line = timing_line_text(&self.events[n - 2 - k], &self.events[n - 1 - k]);
                let ghost prev = texts(lines@);
                let ghost text = line@;
                lines.push(line);
                assert(texts(lines@) =~= prev.push(text));
                k = k + 1;
                assert(texts(lines@) =~= top + Seq::new(
                    k as nat,
                    |j: int| timing_line(s[n - 2 - j], s[n - 1 - j]),
                ));
            }
            assert(texts(lines@) =~= with_summary + timing_lines(s));
        } else {
            assert(texts(lines@) =~= with_summary + timing_lines(s));
        }
        let ghost with_timing = texts(lines@);
        lines.push(rule_line('='));
        lines.push(String::new());
        assert(texts(lines@) =~= with_timing + seq![rule('='), Seq::empty()]);
        assert(texts(lines@) =~= dump_lines(
            self.device_name@,
            self.device_id@,
            self.device_version@,
            failure_reason@,
            time@,
            s,
        ));
        lines
    }
}

} // verus!
