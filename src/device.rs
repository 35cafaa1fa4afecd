//! The state that one device keeps across reconnects: the time of the last
//! command and the timeline; and the steps of the worker that sends
//! commands to the device one at a time, throttled.
use crate::clock::{instant_now, millis_since};
use crate::dps::DpMap;
use crate::timeline::{keep_recent, DeviceEvent, DeviceEventLog, DeviceEventType, EVENT_LOG_CAPACITY};
use vstd::prelude::*;
use vstd::string::*;

verus! {

/// The least time between two commands sent to a device, in milliseconds.
pub const COMMAND_THROTTLE_MS: u64 = 1_000;

/// A heartbeat is skipped if a command went out less than this many
/// milliseconds ago.
pub const HEARTBEAT_SKIP_IF_ACTIVITY_MS: u64 = 10_000;

/// The deadline of each operation on the device link, in milliseconds.
pub const OPERATION_TIMEOUT_MS: u64 = 5_000;

/// `a - b`, or zero where `b` is larger.
pub open spec fn since(a: u64, b: u64) -> u64 {
    if a >= b {
        (a - b) as u64
    } else {
        0
    }
}

/// How long a command must wait at time `now` when the last one went out
/// at `last`: what is left of the throttle interval.
pub open spec fn throttle_delay_ms(now: u64, last: u64) -> u64 {
    if since(now, last) >= COMMAND_THROTTLE_MS {
        0
    } else {
        (COMMAND_THROTTLE_MS - since(now, last)) as u64
    }
}

/// Whether a heartbeat at `now` is skipped when the last command went out at
/// `last`, with the time since then.
pub open spec fn heartbeat_skip(now: u64, last: u64) -> Option<u64> {
    if since(now, last) < HEARTBEAT_SKIP_IF_ACTIVITY_MS {
        Some(since(now, last))
    } else {
        None
    }
}

/// The stamp of the last command after one goes out at `now`.
pub open spec fn stamp_after(last: u64, now: u64) -> u64 {
    if now > last {
        now
    } else {
        last
    }
}

/// Whether `after` is the timeline `before` with one more event, of kind `kind`.
pub open spec fn logged_one(before: Seq<DeviceEvent>, after: Seq<DeviceEvent>, kind: DeviceEventType) -> bool {
    exists|e: DeviceEvent|
        e.event_type == kind && after == keep_recent(
            #[trigger] before.push(e),
            EVENT_LOG_CAPACITY as nat,
        )
}

/// A command for the device.
#[derive(Debug)]
pub enum DeviceCommand {
    /// Set DPs: the map, and its JSON text for the timeline.
    SetValues(DpMap, String),
    /// Ask for the device's state.
    Poll,
    /// Keep the link alive.
    Heartbeat,
}

/// The operations on the device link.
#[derive(Clone, Copy, Debug, PartialEq, Eq, Structural)]
pub enum Operation {
    SetValues,
    Poll,
    Heartbeat,
}

/// The name of an operation in the timeline and in errors.
pub open spec fn operation_name(op: Operation) -> Seq<char> {
    match op {
        Operation::SetValues => "set_values"@,
        Operation::Poll => "poll"@,
        Operation::Heartbeat => "heartbeat"@,
    }
}

impl Operation {
    /// The name of this operation.
    pub fn name(&self) -> (r: &'static str)
        ensures
            r@ == operation_name(*self),
    {
        match self {
            Operation::SetValues => "set_values",
            Operation::Poll => "poll",
            Operation::Heartbeat => "heartbeat",
        }
    }
}

/// The query of a poll: the device id as device, gateway and user, at time "0".
#[derive(Clone, Debug, PartialEq, Eq)]
pub struct PollQuery {
    pub dev_id: String,
    pub gw_id: String,
    pub uid: String,
    pub t: String,
}

/// What to ask of the device link.
#[derive(Debug)]
pub enum LinkRequest {
    SetValues(DpMap),
    Get(PollQuery),
    Heartbeat,
}

/// What the worker does with a command once it may go out.
#[derive(Debug)]
pub enum CommandStep {
    /// Make this request of the link, under the operation deadline.
    Send(Operation, LinkRequest),
    /// Nothing to send; the command is done.
    Skipped,
}

/// How a request of the link ended.
#[derive(Clone, Debug, PartialEq, Eq)]
pub enum LinkOutcome {
    Done,
    /// The link reported an error, described by the text.
    Failed(String),
    /// The deadline passed.
    TimedOut,
}

/// What the second step of sending `command` at time `now` does to the
/// timeline (from `before` to `after`) and hands back, the stamp of the last
/// command being `last` once this one is stamped.
pub open spec fn dispatched(
    command: DeviceCommand,
    device_id: Seq<char>,
    now: u64,
    last: u64,
    before: Seq<DeviceEvent>,
    after: Seq<DeviceEvent>,
    r: CommandStep,
) -> bool {
    match command {
        DeviceCommand::SetValues(dps, json) => {
            &&& logged_one(before, after, DeviceEventType::CommandSent(json))
            &&& r matches CommandStep::Send(Operation::SetValues, LinkRequest::SetValues(m))
            &&& m@ == dps@
        },
        DeviceCommand::Poll => {
            &&& logged_one(before, after, DeviceEventType::PollSent)
            &&& r matches CommandStep::Send(Operation::Poll, LinkRequest::Get(q))
            &&& q.dev_id@ == device_id && q.gw_id@ == device_id && q.uid@ == device_id && q.t@
                == "0"@
        },
        DeviceCommand::Heartbeat => match heartbeat_skip(now, last) {
            Some(ms) => {
                &&& logged_one(
                    before,
                    after,
                    DeviceEventType::HeartbeatSkipped { last_activity_ms: ms },
                )
                &&& r is Skipped
            },
            None => {
                &&& logged_one(before, after, DeviceEventType::HeartbeatSent)
                &&& r matches CommandStep::Send(Operation::Heartbeat, LinkRequest::Heartbeat)
            },
        },
    }
}

/// The state that one device keeps across reconnects.
pub struct DeviceState {
    /// When the last command went out, in milliseconds since `start_instant`.
    pub last_command_time: u64,
    /// Event log for timeline debugging
    pub event_log: DeviceEventLog,
    /// Start instant for monotonic timing
    pub start_instant: tokio::time::Instant,
}

impl DeviceState {
    /// The state of a device whose session starts now, with an empty timeline.
    pub fn new(device_name: String, device_id: String, device_version: String) -> (r: Self)
        ensures
            r.last_command_time == 0,
            r.event_log.events_view() == Seq::<DeviceEvent>::empty(),
            r.event_log.device_view() == (device_name@, device_id@, device_version@),
    {
        DeviceState {
            last_command_time: 0,
            event_log: DeviceEventLog::new(device_name, device_id, device_version),
            start_instant: instant_now(),
        }
    }

    /// Milliseconds since the state was made.
    pub fn elapsed_ms(&self) -> u64 {
        millis_since(&self.start_instant)
    }

    /// How long a command must wait at time `now` to keep the throttle interval.
    pub fn throttle_delay_at(&self, now: u64) -> (r: u64)
        ensures
            r == throttle_delay_ms(now, self.last_command_time),
            r <= COMMAND_THROTTLE_MS,
    {
        let elapsed = if now >= self.last_command_time {
            now - self.last_command_time
        } else {
            0
        };
        if elapsed >= COMMAND_THROTTLE_MS {
            0
        } else {
            COMMAND_THROTTLE_MS - elapsed
        }
    }

    /// How long a command must wait now to keep the throttle interval.
    pub fn throttle_delay(&self) -> (r: u64)
        ensures
            exists|now: u64| r == throttle_delay_ms(now, self.last_command_time),
            r <= COMMAND_THROTTLE_MS,
    {
        let now = self.elapsed_ms();
        self.throttle_delay_at(now)
    }

    /// Notes that a command went out at time `now`. The clock is monotonic;
    /// the stamp never goes back even if it were not.
    pub fn mark_command_sent_at(&mut self, now: u64)
        ensures
            final(self).last_command_time == stamp_after(old(self).last_command_time, now),
            final(self).event_log == old(self).event_log,
            final(self).start_instant == old(self).start_instant,
    {
        if now > self.last_command_time {
            self.last_command_time = now;
        }
    }

    /// Notes that a command went out now.
    pub fn mark_command_sent(&mut self)
        ensures
            final(self).last_command_time >= old(self).last_command_time,
            exists|now: u64|
                final(self).last_command_time == stamp_after(old(self).last_command_time, now),
            final(self).event_log == old(self).event_log,
            final(self).start_instant == old(self).start_instant,
    {
        let now = self.elapsed_ms();
        self.mark_command_sent_at(now);
    }

    /// Whether a heartbeat at time `now` is skipped, with the time since the
    /// last command.
    pub fn should_skip_heartbeat_at(&self, now: u64) -> (r: Option<u64>)
        ensures
            r == heartbeat_skip(now, self.last_command_time),
    {
        let elapsed = if now >= self.last_command_time {
            now - self.last_command_time
        } else {
            0
        };
        if elapsed < HEARTBEAT_SKIP_IF_ACTIVITY_MS {
            Some(elapsed)
        } else {
            None
        }
    }

    /// Whether a heartbeat now is skipped, with the time since the last command.
    pub fn should_skip_heartbeat(&self) -> (r: Option<u64>)
        ensures
            exists|now: u64| r == heartbeat_skip(now, self.last_command_time),
    {
        let now = self.elapsed_ms();
        self.should_skip_heartbeat_at(now)
    }

    /// Adds an event to the timeline.
    pub fn log_event(&mut self, event_type: DeviceEventType)
        ensures
            logged_one(
                old(self).event_log.events_view(),
                final(self).event_log.events_view(),
                event_type,
            ),
            final(self).event_log.device_view() == old(self).event_log.device_view(),
            final(self).last_command_time == old(self).last_command_time,
    {
        self.event_log.log(event_type);
    }

    /// The lines of a dump of the timeline after a failure.
    pub fn dump_timeline(&self, failure_reason: &str) -> (r: Vec<String>)
        ensures
            exists|time: Seq<char>|
                crate::timeline::texts(r@) == crate::timeline::dump_lines(
                    self.event_log.device_view().0,
                    self.event_log.device_view().1,
                    self.event_log.device_view().2,
                    failure_reason@,
                    time,
                    self.event_log.events_view(),
                ),
    {
        self.event_log.dump_timeline(failure_reason)
    }

    /// The first step of sending a command at time `now`: the wait that the
    /// throttle asks for, noted in the timeline when there is one.
    pub fn begin_command_at(&mut self, now: u64) -> (r: u64)
        ensures
            r == throttle_delay_ms(now, old(self).last_command_time),
            r > 0 ==> logged_one(
                old(self).event_log.events_view(),
                final(self).event_log.events_view(),
                DeviceEventType::Throttled { delayed_ms: r },
            ),
            r == 0 ==> final(self).event_log.events_view() == old(self).event_log.events_view(),
            final(self).event_log.device_view() == old(self).event_log.device_view(),
            final(self).last_command_time == old(self).last_command_time,
    {
        let delay = self.throttle_delay_at(now);
        if delay > 0 {
            self.log_event(DeviceEventType::Throttled { delayed_ms: delay });
        }
        delay
    }

    /// The first step of sending a command now.
    pub fn begin_command(&mut self) -> (r: u64)
        ensures
            r <= COMMAND_THROTTLE_MS,
            exists|now: u64| r == throttle_delay_ms(now, old(self).last_command_time),
            r > 0 ==> logged_one(
                old(self).event_log.events_view(),
                final(self).event_log.events_view(),
                DeviceEventType::Throttled { delayed_ms: r },
            ),
            r == 0 ==> final(self).event_log.events_view() == old(self).event_log.events_view(),
            final(self).event_log.device_view() == old(self).event_log.device_view(),
            final(self).last_command_time == old(self).last_command_time,
    {
        let now = self.elapsed_ms();
        self.begin_command_at(now)
    }

    /// The second step of sending a command, once its wait is over, at time
    /// `now`: the command is stamped as sent; then a write of DPs or a poll
    /// is noted in the timeline and handed to the link, and a heartbeat is
    /// skipped if a command went out recently, else noted and handed on.
    pub fn dispatch_command_at(&mut self, command: DeviceCommand, device_id: &str, now: u64) -> (r: CommandStep)
        ensures
            final(self).last_command_time == stamp_after(old(self).last_command_time, now),
            final(self).event_log.device_view() == old(self).event_log.device_view(),
            dispatched(
                command,
                device_id@,
                now,
                final(self).last_command_time,
                old(self).event_log.events_view(),
                final(self).event_log.events_view(),
                r,
            ),
    {
        self.mark_command_sent_at(now);
        match command {
            DeviceCommand::SetValues(dps, json) => {
                self.log_event(DeviceEventType::CommandSent(json));
                CommandStep::Send(Operation::SetValues, LinkRequest::SetValues(dps))
            },
            DeviceCommand::Poll => {
                self.log_event(DeviceEventType::PollSent);
                CommandStep::Send(
                    Operation::Poll,
                    LinkRequest::Get(
                        PollQuery {
                            dev_id: String::from_str(device_id),
                            gw_id: String::from_str(device_id),
                            uid: String::from_str(device_id),
                            t: String::from_str("0"),
                        },
                    ),
                )
            },
            DeviceCommand::Heartbeat => {
                match self.should_skip_heartbeat_at(now) {
                    Some(last_activity_ms) => {
                        self.log_event(DeviceEventType::HeartbeatSkipped { last_activity_ms });
                        CommandStep::Skipped
                    },
                    None => {
                        self.log_event(DeviceEventType::HeartbeatSent);
                        CommandStep::Send(Operation::Heartbeat, LinkRequest::Heartbeat)
                    },
                }
            },
        }
    }

    /// The second step of sending a command, once its wait is over, now.
    pub fn dispatch_command(&mut self, command: DeviceCommand, device_id: &str) -> (r: CommandStep)
        ensures
            final(self).last_command_time >= old(self).last_command_time,
            final(self).event_log.device_view() == old(self).event_log.device_view(),
            exists|now: u64|
                final(self).last_command_time == stamp_after(old(self).last_command_time, now)
                    && #[trigger] dispatched(
                    command,
                    device_id@,
                    now,
                    final(self).last_command_time,
                    old(self).event_log.events_view(),
                    final(self).event_log.events_view(),
                    r,
                ),
    {
        let now = self.elapsed_ms();
        self.dispatch_command_at(command, device_id, now)
    }

    /// The last step of sending a command: how its request of the link
    /// ended. An error is noted as "<op>: <error>" and ends the worker with
    /// "<op> failed: <error>"; a passed deadline is noted as the operation's
    /// timeout and ends it with "<op> timeout".
    pub fn finish_command(&mut self, op: Operation, outcome: LinkOutcome) -> (r: Result<(), String>)
        ensures
            final(self).last_command_time == old(self).last_command_time,
            final(self).event_log.device_view() == old(self).event_log.device_view(),
            ({
                let before = old(self).event_log.events_view();
                let after = final(self).event_log.events_view();
                match outcome {
                    LinkOutcome::Done => r is Ok && after == before,
                    LinkOutcome::Failed(e) => exists|logged: String|
                        logged@ == operation_name(op) + ": "@ + e@ && logged_one(
                            before,
                            after,
                            DeviceEventType::Error(logged),
                        ) && (r matches Err(m) && m@ == operation_name(op) + " failed: "@ + e@),
                    LinkOutcome::TimedOut => exists|logged: String|
                        logged@ == operation_name(op) && logged_one(
                            before,
                            after,
                            DeviceEventType::Timeout(logged),
                        ) && (r matches Err(m) && m@ == operation_name(op) + " timeout"@),
                }
            }),
    {
        let name = op.name();
        match outcome {
            LinkOutcome::Done => Ok(()),
            LinkOutcome::Failed(e) => {
                let logged = String::from_str(name).concat(": ").concat(e.as_str());
                let ghost g = logged;
                self.log_event(DeviceEventType::Error(logged));
                assert(g@ == operation_name(op) + ": "@ + e@);
                Err(String::from_str(name).concat(" failed: ").concat(e.as_str()))
            },
            LinkOutcome::TimedOut => {
                let logged = String::from_str(name);
                let ghost g = logged;
                self.log_event(DeviceEventType::Timeout(logged));
                Err(String::from_str(name).concat(" timeout"))
            },
        }
    }
}

/// A command that waits out the throttle delay it was given goes out at
/// least the throttle interval after the one before: whatever the times at
/// which commands are handed in, two that go out one after the other are
/// that far apart.
pub proof fn lemma_throttle_spacing(last: u64, now: u64, sent: u64)
    requires
        last <= now,
        now + throttle_delay_ms(now, last) <= sent,
    ensures
        stamp_after(last, sent) >= last + COMMAND_THROTTLE_MS,
{
}

/// A heartbeat less than the skip interval after a command went out is
/// skipped, however many commands went out between the two.
pub proof fn lemma_heartbeat_skipped_after_command(command_at: u64, last: u64, heartbeat_at: u64)
    requires
        command_at <= last <= heartbeat_at,
        heartbeat_at < command_at + HEARTBEAT_SKIP_IF_ACTIVITY_MS,
    ensures
        heartbeat_skip(heartbeat_at, last) == Some((heartbeat_at - last) as u64),
{
}

} // verus!
