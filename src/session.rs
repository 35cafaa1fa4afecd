//! The decisions of a device session: what the receive loop does with each
//! batch, how long the schedulers sleep, and what the reconnect driver does
//! after a session ends.
use crate::codec::{decode_batch, tuya_to_mqtt, CommandKind, DecodeError, DeviceMessage};
use crate::config::TuyaDeviceConfig;
use crate::device::{logged_one, DeviceState};
use crate::mqtt::MqttDevice;
use crate::text::{contains_text, has_substring, replace_first, replace_first_char};
use crate::timeline::{dump_lines, texts, DeviceEventType};
use vstd::prelude::*;
use vstd::string::*;

verus! {

/// How long the receive loop waits for a batch before it takes the link as
/// stale, in milliseconds.
pub const RECEIVE_TIMEOUT_MS: u64 = 30_000;

/// The deadline of the connection to a device, in milliseconds.
pub const CONNECT_TIMEOUT_MS: u64 = 9_000;

/// Polling interval for querying device status (in milliseconds). Polling
/// faster than every ten seconds exhausts the firmware of protocol 3.4
/// devices.
pub const POLL_INTERVAL_MS: u64 = 15_000;

/// The most random jitter added to the polling interval, in milliseconds; it
/// spreads the polls of many devices apart.
pub const POLL_JITTER_MS: u64 = 2_000;

/// Heartbeat interval to keep the TCP connection alive (in milliseconds).
pub const HEARTBEAT_INTERVAL_MS: u64 = 15_000;

/// The most random jitter added to the heartbeat interval, in milliseconds.
pub const HEARTBEAT_JITTER_MS: u64 = 5_000;

/// The reconnect delay after a first failure, and after a transient one.
pub const INITIAL_RECONNECT_DELAY_MS: u64 = 1_000;

/// The longest reconnect delay.
pub const MAX_RECONNECT_DELAY_MS: u64 = 60_000;

// ---------------------------------------------------------------------------
// Receive loop
// ---------------------------------------------------------------------------

/// The text of a message's command in a batch summary, as `Some(<name>)` or `None`.
pub open spec fn command_label(c: Option<CommandKind>) -> Seq<char> {
    match c {
        None => "None"@,
        Some(CommandKind::DpQuery) => "Some(DpQuery)"@,
        Some(CommandKind::DpQueryNew) => "Some(DpQueryNew)"@,
        Some(CommandKind::ControlNew) => "Some(ControlNew)"@,
        Some(CommandKind::Other(name)) => "Some("@ + name@ + ")"@,
    }
}

/// The summary of a batch: the commands of its messages, separated by commas.
pub open spec fn batch_summary(messages: Seq<DeviceMessage>) -> Seq<char>
    decreases messages.len(),
{
    if messages.len() == 0 {
        Seq::empty()
    } else if messages.len() == 1 {
        command_label(messages[0].command)
    } else {
        batch_summary(messages.drop_last()) + ", "@ + command_label(messages.last().command)
    }
}

/// The topic on which a device's state is published: its own, or the bus
/// template with the device id in place of the first `+`.
pub open spec fn state_topic(config: TuyaDeviceConfig, template: Seq<char>) -> Seq<char> {
    match config.topic {
        Some(t) => t@,
        None => replace_first(template, '+', config.id@),
    }
}

/// What happened while the receive loop waited for a batch.
#[derive(Debug)]
pub enum ReceiveEvent {
    /// No batch came within the receive deadline.
    TimedOut,
    /// The link's stream of batches ended.
    Closed,
    /// The link reported an error, described by the text.
    Failed(String),
    /// A batch of messages arrived.
    Batch(Vec<DeviceMessage>),
}

/// What the receive loop does next.
#[derive(Debug)]
pub enum ReceiveAction {
    /// End the session with this error.
    Fail(String),
    /// Wait for the next batch.
    Continue,
    /// Hand this state to the publisher for this topic, then wait for the next batch.
    Publish(String, MqttDevice),
}

/// The state of the receive loop: whether the next batch is to be dropped.
#[derive(Clone, Copy, Debug, PartialEq, Eq, Structural)]
pub struct ReceiveState {
    pub ignore_next: bool,
}

/// The text of a message's command in a batch summary.
fn command_label_text(c: &Option<CommandKind>) -> (r: String)
    ensures
        r@ == command_label(*c),
{
    match c {
        None => String::from_str("None"),
        Some(CommandKind::DpQuery) => String::from_str("Some(DpQuery)"),
        Some(CommandKind::DpQueryNew) => String::from_str("Some(DpQueryNew)"),
        Some(CommandKind::ControlNew) => String::from_str("Some(ControlNew)"),
        Some(CommandKind::Other(name)) => String::from_str("Some(").concat(name.as_str()).concat(
            ")",
        ),
    }
}

/// The summary of a batch: the commands of its messages, separated by commas.
pub fn summarize_batch(messages: &Vec<DeviceMessage>) -> (r: String)
    ensures
        r@ == batch_summary(messages@),
{
    let mut s = String::new();
    let mut i: usize = 0;
    while i < messages.len()
        invariant
            i <= messages@.len(),
            s@ == batch_summary(messages@.take(i as int)),
        decreases messages@.len() - i,
    {
        let ghost before = messages@.take(i as int);
        assert(messages@.take(i + 1).drop_last() =~= before);
        if i > 0 {
            s.append(", ");
        }
        let label = command_label_text(&messages[i].command);
        s.append(label.as_str());
        i = i + 1;
        if i == 1 {
            assert(s@ =~= batch_summary(messages@.take(i as int)));
        }
    }
    assert(messages@.take(messages@.len() as int) =~= messages@);
    s
}

/// The topic on which a device's state is published.
pub fn device_topic(config: &TuyaDeviceConfig, template: &str) -> (r: String)
    ensures
        r@ == state_topic(*config, template@),
{
    match &config.topic {
        Some(t) => t.clone(),
        None => replace_first_char(template, '+', config.id.as_str()),
    }
}

impl ReceiveState {
    /// The state at the start of a session: no batch to drop.
    pub fn new() -> (r: Self)
        ensures
            !r.ignore_next,
    {
        ReceiveState { ignore_next: false }
    }

    /// One turn of the receive loop. A missed deadline, the end of the
    /// stream and a link error end the session, each noted in the timeline.
    /// A batch is noted with its summary; then it is dropped if the one
    /// before asked for that, else decoded: an echo to come is marked to be
    /// dropped, an undecodable batch is dropped silently, and a decoded
    /// state is handed on for publishing on the device's topic.
    pub fn on_event(
        &mut self,
        event: ReceiveEvent,
        state: &mut DeviceState,
        config: &TuyaDeviceConfig,
        template: &str,
    ) -> (r: ReceiveAction)
        ensures
            final(state).last_command_time == old(state).last_command_time,
            final(state).event_log.device_view() == old(state).event_log.device_view(),
            ({
                let before = old(state).event_log.events_view();
                let after = final(state).event_log.events_view();
                match event {
                    ReceiveEvent::TimedOut => {
                        &&& logged_one(before, after, DeviceEventType::ReceiveTimeout)
                        &&& r matches ReceiveAction::Fail(m) && m@
                            == "Receive timeout - connection stale"@
                        &&& *final(self) == *old(self)
                    },
                    ReceiveEvent::Closed => {
                        &&& exists|e: String|
                            e@ == "Receive channel closed"@ && logged_one(
                                before,
                                after,
                                DeviceEventType::Error(e),
                            )
                        &&& r matches ReceiveAction::Fail(m) && m@ == "Receive channel closed"@
                        &&& *final(self) == *old(self)
                    },
                    ReceiveEvent::Failed(err) => {
                        &&& exists|e: String|
                            e@ == "recv: "@ + err@ && logged_one(
                                before,
                                after,
                                DeviceEventType::Error(e),
                            )
                        &&& r matches ReceiveAction::Fail(m) && m@ == err@
                        &&& *final(self) == *old(self)
                    },
                    ReceiveEvent::Batch(messages) => {
                        &&& exists|e: String|
                            e@ == batch_summary(messages@) && logged_one(
                                before,
                                after,
                                DeviceEventType::MessageReceived(e),
                            )
                        &&& if old(self).ignore_next {
                            &&& r is Continue
                            &&& !final(self).ignore_next
                        } else {
                            match decode_batch(messages@, *config) {
                                Ok(d) => {
                                    &&& r matches ReceiveAction::Publish(topic, device) && topic@
                                        == state_topic(*config, template@) && device@ == d
                                    &&& !final(self).ignore_next
                                },
                                Err(DecodeError::IgnoreNext) => {
                                    &&& r is Continue
                                    &&& final(self).ignore_next
                                },
                                Err(_) => {
                                    &&& r is Continue
                                    &&& !final(self).ignore_next
                                },
                            }
                        }
                    },
                }
            }),
    {
        match event {
            ReceiveEvent::TimedOut => {
                state.log_event(DeviceEventType::ReceiveTimeout);
                ReceiveAction::Fail(String::from_str("Receive timeout - connection stale"))
            },
            ReceiveEvent::Closed => {
                let e = String::from_str("Receive channel closed");
                let ghost g = e;
                state.log_event(DeviceEventType::Error(e));
                assert(g@ == "Receive channel closed"@);
                ReceiveAction::Fail(String::from_str("Receive channel closed"))
            },
            ReceiveEvent::Failed(err) => {
                let e = String::from_str("recv: ").concat(err.as_str());
                let ghost g = e;
                state.log_event(DeviceEventType::Error(e));
                assert(g@ == "recv: "@ + err@);
                ReceiveAction::Fail(err)
            },
            ReceiveEvent::Batch(messages) => {
                let summary = summarize_batch(&messages);
                let ghost g = summary;
                state.log_event(DeviceEventType::MessageReceived(summary));
                assert(g@ == batch_summary(messages@));
                if self.ignore_next {
                    self.ignore_next = false;
                    return ReceiveAction::Continue;
                }
                match tuya_to_mqtt(messages, config) {
                    Ok(device) => ReceiveAction::Publish(device_topic(config, template), device),
                    Err(DecodeError::IgnoreNext) => {
                        self.ignore_next = true;
                        ReceiveAction::Continue
                    },
                    Err(_) => ReceiveAction::Continue,
                }
            },
        }
    }
}

// ---------------------------------------------------------------------------
// Schedulers
// ---------------------------------------------------------------------------

/// Relies on `rand::random::<u64>`: a random number from the thread-local
/// generator. Nothing is promised of its value.
#[verifier::external_body]
fn random_u64() -> u64 {
    rand::random::<u64>()
}

/// How long the poll scheduler sleeps, given a random number: the interval
/// plus a jitter of `random` modulo one more than the largest jitter.
pub fn poll_delay_from(random: u64) -> (r: u64)
    ensures
        r == POLL_INTERVAL_MS + random % ((POLL_JITTER_MS + 1) as u64),
{
    POLL_INTERVAL_MS + random % (POLL_JITTER_MS + 1)
}

/// How long the heartbeat scheduler sleeps, given a random number.
pub fn heartbeat_delay_from(random: u64) -> (r: u64)
    ensures
        r == HEARTBEAT_INTERVAL_MS + random % ((HEARTBEAT_JITTER_MS + 1) as u64),
{
    HEARTBEAT_INTERVAL_MS + random % (HEARTBEAT_JITTER_MS + 1)
}

/// How long the poll scheduler sleeps before its next poll.
pub fn next_poll_delay() -> (r: u64)
    ensures
        POLL_INTERVAL_MS <= r <= POLL_INTERVAL_MS + POLL_JITTER_MS,
{
    poll_delay_from(random_u64())
}

/// How long the heartbeat scheduler sleeps before its next heartbeat.
pub fn next_heartbeat_delay() -> (r: u64)
    ensures
        HEARTBEAT_INTERVAL_MS <= r <= HEARTBEAT_INTERVAL_MS + HEARTBEAT_JITTER_MS,
{
    heartbeat_delay_from(random_u64())
}

// ---------------------------------------------------------------------------
// Reconnect driver
// ---------------------------------------------------------------------------

/// Whether an error means that the device stopped answering; such a failure
/// has its timeline dumped.
pub open spec fn device_failure(e: Seq<char>) -> bool {
    has_substring(e, "TcpStreamClosed"@) || has_substring(e, "Bad read from TcpStream"@)
        || has_substring(e, "Receive timeout"@) || has_substring(e, "connection stale"@)
        || has_substring(e, "heartbeat failed"@) || has_substring(e, "heartbeat timeout"@)
}

/// Whether an error is a passing fault, after which the device is retried
/// at once: an incomplete or overlong frame, or a session key handshake
/// that failed by chance.
pub open spec fn transient_failure(e: Seq<char>) -> bool {
    has_substring(e, "Data was incomplete"@) || has_substring(
        e,
        "still contains data after parsing"@,
    ) || has_substring(e, "InvalidSessionKey"@)
}

/// Check if an error is likely related to a device becoming unresponsive.
pub fn is_device_failure_error(error_str: &str) -> (r: bool)
    ensures
        r == device_failure(error_str@),
{
    contains_text(error_str, "TcpStreamClosed") || contains_text(
        error_str,
        "Bad read from TcpStream",
    ) || contains_text(error_str, "Receive timeout") || contains_text(
        error_str,
        "connection stale",
    ) || contains_text(error_str, "heartbeat failed") || contains_text(
        error_str,
        "heartbeat timeout",
    )
}

/// Check if an error is transient and should reset the backoff.
pub fn is_transient_error(error_str: &str) -> (r: bool)
    ensures
        r == transient_failure(error_str@),
{
    contains_text(error_str, "Data was incomplete") || contains_text(
        error_str,
        "still contains data after parsing",
    ) || contains_text(error_str, "InvalidSessionKey")
}

/// The delay after the one given: twice as long, up to the longest.
pub open spec fn next_delay(delay: u64) -> u64 {
    if 2 * delay > MAX_RECONNECT_DELAY_MS {
        MAX_RECONNECT_DELAY_MS
    } else {
        (2 * delay) as u64
    }
}

/// What the reconnect driver does after a session ended.
#[derive(Debug)]
pub struct ReconnectStep {
    /// The lines of a timeline dump to write, if any.
    pub dump: Option<Vec<String>>,
    /// Whether to disconnect the link.
    pub disconnect: bool,
    /// How long to sleep before the next session, in milliseconds.
    pub sleep_ms: u64,
}

/// The delay of the reconnect driver before its next session.
#[derive(Clone, Copy, Debug)]
pub struct ReconnectBackoff {
    delay_ms: u64,
}

impl ReconnectBackoff {
    #[verifier::type_invariant]
    spec fn in_range(&self) -> bool {
        INITIAL_RECONNECT_DELAY_MS <= self.delay_ms <= MAX_RECONNECT_DELAY_MS
    }

    /// The delay before the next session.
    pub closed spec fn delay(&self) -> u64 {
        self.delay_ms
    }

    /// The backoff at the start: the initial delay.
    pub fn new() -> (r: Self)
        ensures
            r.delay() == INITIAL_RECONNECT_DELAY_MS,
    {
        ReconnectBackoff { delay_ms: INITIAL_RECONNECT_DELAY_MS }
    }

    /// The delay before the next session.
    pub fn delay_ms(&self) -> (r: u64)
        ensures
            r == self.delay(),
    {
        self.delay_ms
    }

    /// What to do after a session ended. After a clean end, the delay goes
    /// back to the initial one and the next session starts at once. After a
    /// failure: the error is noted in the timeline; the timeline is dumped
    /// for a failure of the device; a transient failure brings the delay
    /// back to the initial one; the disconnect is noted, the link is
    /// disconnected, the driver sleeps for the delay, and the delay doubles
    /// up to the longest.
    pub fn after_session(&mut self, state: &mut DeviceState, result: Result<(), String>) -> (r: ReconnectStep)
        ensures
            final(state).last_command_time == old(state).last_command_time,
            final(state).event_log.device_view() == old(state).event_log.device_view(),
            ({
                let before = old(state).event_log.events_view();
                let after = final(state).event_log.events_view();
                match result {
                    Ok(()) => {
                        &&& final(self).delay() == INITIAL_RECONNECT_DELAY_MS
                        &&& r.dump is None && !r.disconnect && r.sleep_ms == 0
                        &&& after == before
                    },
                    Err(e) => {
                        let slept = if transient_failure(e@) {
                            INITIAL_RECONNECT_DELAY_MS
                        } else {
                            old(self).delay()
                        };
                        &&& r.sleep_ms == slept
                        &&& final(self).delay() == next_delay(slept)
                        &&& r.disconnect
                        &&& (r.dump is Some <==> device_failure(e@))
                        &&& exists|logged: String, mid: Seq<crate::timeline::DeviceEvent>|
                            logged@ == e@ && logged_one(before, mid, DeviceEventType::Error(logged))
                                && logged_one(mid, after, DeviceEventType::Disconnected) && (
                            r.dump matches Some(lines) ==> exists|time: Seq<char>|
                                texts(lines@) == dump_lines(
                                    old(state).event_log.device_view().0,
                                    old(state).event_log.device_view().1,
                                    old(state).event_log.device_view().2,
                                    e@,
                                    time,
                                    mid,
                                ))
                    },
                }
            }),
    {
        proof {
            use_type_invariant(&*self);
        }
        match result {
            Ok(()) => {
                self.delay_ms = INITIAL_RECONNECT_DELAY_MS;
                ReconnectStep { dump: None, disconnect: false, sleep_ms: 0 }
            },
            Err(e) => {
                let logged = e.clone();
                let ghost g = logged;
                state.log_event(DeviceEventType::Error(logged));
                let ghost mid = state.event_log.events_view();
                let dump = if is_device_failure_error(e.as_str()) {
                    Some(state.dump_timeline(e.as_str()))
                } else {
                    None
                };
                if is_transient_error(e.as_str()) {
                    self.delay_ms = INITIAL_RECONNECT_DELAY_MS;
                }
                state.log_event(DeviceEventType::Disconnected);
                let sleep_ms = self.delay_ms;
                self.delay_ms = if 2 * self.delay_ms > MAX_RECONNECT_DELAY_MS {
                    MAX_RECONNECT_DELAY_MS
                } else {
                    2 * self.delay_ms
                };
                assert(g@ == e@);
                ReconnectStep { dump, disconnect: true, sleep_ms }
            },
        }
    }
}

/// `2` to the power `k`.
pub open spec fn two_to(k: nat) -> nat
    decreases k,
{
    if k == 0 {
        1
    } else {
        2 * two_to((k - 1) as nat)
    }
}

/// The delay before the sleep that follows the `k`-th of a run of failures
/// that are not transient, counted from zero, from the initial delay.
pub open spec fn delay_in_run(k: nat) -> u64
    decreases k,
{
    if k == 0 {
        INITIAL_RECONNECT_DELAY_MS
    } else {
        next_delay(delay_in_run((k - 1) as nat))
    }
}

/// The time slept over the first `k` failures of such a run.
pub open spec fn slept_in_run(k: nat) -> nat
    decreases k,
{
    if k == 0 {
        0
    } else {
        slept_in_run((k - 1) as nat) + delay_in_run((k - 1) as nat) as nat
    }
}

proof fn lemma_delay_in_run(k: nat)
    ensures
        delay_in_run(k) <= MAX_RECONNECT_DELAY_MS,
        delay_in_run(k) <= 1000 * two_to(k),
        k <= 5 ==> delay_in_run(k) == 1000 * two_to(k),
    decreases k,
{
    if k > 0 {
        lemma_delay_in_run((k - 1) as nat);
        if k <= 5 {
            assert(two_to(0) == 1);
            assert(two_to(1) == 2);
            assert(two_to(2) == 4);
            assert(two_to(3) == 8);
            assert(two_to(4) == 16);
            assert(two_to((k - 1) as nat) <= 16);
        }
    }
}

/// Over `k` consecutive failures that are not transient, starting from the
/// initial delay, the driver sleeps at most `1000 * (2^k - 1)` ms and at most
/// the longest delay `k` times; exactly `1000 * (2^k - 1)` ms while the
/// doubling stays below the longest delay (`k <= 6`).
pub proof fn lemma_backoff_total(k: nat)
    ensures
        slept_in_run(k) + 1000 <= 1000 * two_to(k),
        slept_in_run(k) <= MAX_RECONNECT_DELAY_MS * k,
        k <= 6 ==> slept_in_run(k) + 1000 == 1000 * two_to(k),
    decreases k,
{
    if k > 0 {
        lemma_backoff_total((k - 1) as nat);
        lemma_delay_in_run((k - 1) as nat);
    }
}

} // verus!
