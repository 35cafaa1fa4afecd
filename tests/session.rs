use tuya_bridge::bus::{client_id, client_id_from, command_topic};
use tuya_bridge::codec::{CommandKind, DeviceMessage, MessagePayload};
use tuya_bridge::config::TuyaDeviceConfig;
use tuya_bridge::device::{
    CommandStep, DeviceCommand, DeviceState, LinkOutcome, LinkRequest, Operation,
    COMMAND_THROTTLE_MS,
};
use tuya_bridge::dps::{DpMap, DpValue};
use tuya_bridge::session::{
    device_topic, heartbeat_delay_from, is_device_failure_error, is_transient_error,
    next_heartbeat_delay, next_poll_delay, poll_delay_from, summarize_batch, ReceiveAction,
    ReceiveEvent, ReceiveState, ReconnectBackoff,
};
use tuya_bridge::timeline::DeviceEventType;

fn config() -> TuyaDeviceConfig {
    TuyaDeviceConfig {
        name: "Lamp".to_string(),
        id: "L1".to_string(),
        local_key: "key".to_string(),
        ip: "10.0.0.2".to_string(),
        version: "3.4".to_string(),
        max_brightness: None,
        power_on_field: None,
        capabilities: None,
        topic: None,
    }
}

fn state() -> DeviceState {
    DeviceState::new("Lamp".to_string(), "L1".to_string(), "3.4".to_string())
}

fn last_kind(s: &DeviceState) -> DeviceEventType {
    s.event_log.event(s.event_log.len() - 1).event_type.clone()
}

fn colour_batch() -> Vec<DeviceMessage> {
    let mut m = DpMap::new();
    m.insert("21".to_string(), DpValue::Text("colour".to_string()));
    m.insert("24".to_string(), DpValue::Text("00780190012c".to_string()));
    vec![DeviceMessage { command: Some(CommandKind::DpQuery), payload: MessagePayload::Struct(Some(m)) }]
}

#[test]
fn power_on_command_goes_out_within_the_throttle() {
    let mut s = state();
    let delay = s.begin_command_at(500);
    assert_eq!(delay, 500);
    assert!(delay <= 1200);
    assert_eq!(last_kind(&s), DeviceEventType::Throttled { delayed_ms: 500 });
    let mut dps = DpMap::new();
    dps.insert("20".to_string(), DpValue::Bool(true));
    let step = s.dispatch_command_at(DeviceCommand::SetValues(dps, "{\"20\":true}".to_string()), "L1", 1000);
    match step {
        CommandStep::Send(Operation::SetValues, LinkRequest::SetValues(m)) => {
            assert_eq!(m.get("20"), Some(&DpValue::Bool(true)));
        }
        other => panic!("unexpected step {:?}", other),
    }
    assert_eq!(last_kind(&s), DeviceEventType::CommandSent("{\"20\":true}".to_string()));
    assert_eq!(s.last_command_time, 1000);
    let len = s.event_log.len();
    assert_eq!(s.finish_command(Operation::SetValues, LinkOutcome::Done), Ok(()));
    assert_eq!(s.event_log.len(), len);
}

#[test]
fn throttle_delay_values() {
    let mut s = state();
    s.mark_command_sent_at(10_000);
    assert_eq!(s.throttle_delay_at(10_000), COMMAND_THROTTLE_MS);
    assert_eq!(s.throttle_delay_at(10_400), 600);
    assert_eq!(s.throttle_delay_at(11_000), 0);
    assert_eq!(s.throttle_delay_at(50_000), 0);
    assert_eq!(s.begin_command_at(20_000), 0);
    assert_eq!(s.event_log.len(), 0);
    s.mark_command_sent_at(5);
    assert_eq!(s.last_command_time, 10_000);
    assert!(s.throttle_delay() <= COMMAND_THROTTLE_MS);
}

#[test]
fn heartbeat_skipped_after_recent_command() {
    let mut s = state();
    s.mark_command_sent_at(1_000);
    assert_eq!(s.should_skip_heartbeat_at(10_999), Some(9_999));
    assert_eq!(s.should_skip_heartbeat_at(11_000), None);
    let step = s.dispatch_command_at(DeviceCommand::Heartbeat, "L1", 5_000);
    assert!(matches!(step, CommandStep::Skipped));
    assert_eq!(last_kind(&s), DeviceEventType::HeartbeatSkipped { last_activity_ms: 0 });
}

#[test]
fn poll_asks_with_device_ids() {
    let mut s = state();
    match s.dispatch_command_at(DeviceCommand::Poll, "L1", 42) {
        CommandStep::Send(Operation::Poll, LinkRequest::Get(q)) => {
            assert_eq!(q.dev_id, "L1");
            assert_eq!(q.gw_id, "L1");
            assert_eq!(q.uid, "L1");
            assert_eq!(q.t, "0");
        }
        other => panic!("unexpected step {:?}", other),
    }
    assert_eq!(last_kind(&s), DeviceEventType::PollSent);
}

#[test]
fn link_failures_are_noted() {
    let mut s = state();
    assert_eq!(
        s.finish_command(Operation::Poll, LinkOutcome::Failed("Io(broken pipe)".to_string())),
        Err("poll failed: Io(broken pipe)".to_string())
    );
    assert_eq!(last_kind(&s), DeviceEventType::Error("poll: Io(broken pipe)".to_string()));
    assert_eq!(s.finish_command(Operation::Heartbeat, LinkOutcome::TimedOut), Err("heartbeat timeout".to_string()));
    assert_eq!(last_kind(&s), DeviceEventType::Timeout("heartbeat".to_string()));
}

#[test]
fn stale_link() {
    let mut s = state();
    let mut rx = ReceiveState::new();
    let action = rx.on_event(ReceiveEvent::TimedOut, &mut s, &config(), "lamps/+");
    let msg = match action {
        ReceiveAction::Fail(m) => m,
        other => panic!("unexpected action {:?}", other),
    };
    assert_eq!(msg, "Receive timeout - connection stale");
    assert_eq!(last_kind(&s), DeviceEventType::ReceiveTimeout);
    assert!(is_device_failure_error(&msg));
    let mut backoff = ReconnectBackoff::new();
    let step = backoff.after_session(&mut s, Err(msg.clone()));
    assert!(step.dump.is_some());
    assert!(step.disconnect);
    assert_eq!(step.sleep_ms, 1000);
    assert_eq!(backoff.delay_ms(), 2000);
    assert_eq!(last_kind(&s), DeviceEventType::Disconnected);
    let dump = step.dump.unwrap();
    assert!(dump.contains(&format!("Failure Reason: {}", msg)));
    assert!(dump.contains(&"  Errors: 1".to_string()));
}

#[test]
fn ignore_next() {
    let mut s = state();
    let mut rx = ReceiveState::new();
    let control = vec![DeviceMessage { command: Some(CommandKind::ControlNew), payload: MessagePayload::Text(None) }];
    assert!(matches!(rx.on_event(ReceiveEvent::Batch(control), &mut s, &config(), "lamps/+"), ReceiveAction::Continue));
    assert!(rx.ignore_next);
    assert_eq!(last_kind(&s), DeviceEventType::MessageReceived("Some(ControlNew)".to_string()));
    let junk = vec![DeviceMessage { command: None, payload: MessagePayload::Other }];
    assert!(matches!(rx.on_event(ReceiveEvent::Batch(junk), &mut s, &config(), "lamps/+"), ReceiveAction::Continue));
    assert!(!rx.ignore_next);
    assert!(matches!(
        rx.on_event(ReceiveEvent::Batch(colour_batch()), &mut s, &config(), "lamps/+"),
        ReceiveAction::Publish(_, _)
    ));
}

#[test]
fn decoded_state_is_published_on_the_device_topic() {
    let mut s = state();
    let mut rx = ReceiveState::new();
    match rx.on_event(ReceiveEvent::Batch(colour_batch()), &mut s, &config(), "home/+/lamp") {
        ReceiveAction::Publish(topic, device) => {
            assert_eq!(topic, "home/L1/lamp");
            assert_eq!(device.brightness, Some(29_700));
        }
        other => panic!("unexpected action {:?}", other),
    }
    let mut cfg = config();
    cfg.topic = Some("kitchen/lamp".to_string());
    assert_eq!(device_topic(&cfg, "home/+/lamp"), "kitchen/lamp");
    assert_eq!(device_topic(&config(), "home/lamps"), "home/lamps");
    assert_eq!(device_topic(&config(), "a/+/+"), "a/L1/+");
}

#[test]
fn junk_batch_is_dropped() {
    let mut s = state();
    let mut rx = ReceiveState::new();
    let junk = vec![DeviceMessage { command: Some(CommandKind::Other("Status".to_string())), payload: MessagePayload::Text(None) }];
    assert!(matches!(rx.on_event(ReceiveEvent::Batch(junk), &mut s, &config(), "l/+"), ReceiveAction::Continue));
    assert!(!rx.ignore_next);
}

#[test]
fn channel_end_and_link_error_fail_the_session() {
    let mut s = state();
    let mut rx = ReceiveState::new();
    match rx.on_event(ReceiveEvent::Closed, &mut s, &config(), "l/+") {
        ReceiveAction::Fail(m) => assert_eq!(m, "Receive channel closed"),
        other => panic!("unexpected action {:?}", other),
    }
    assert_eq!(last_kind(&s), DeviceEventType::Error("Receive channel closed".to_string()));
    match rx.on_event(ReceiveEvent::Failed("TcpStreamClosed".to_string()), &mut s, &config(), "l/+") {
        ReceiveAction::Fail(m) => assert_eq!(m, "TcpStreamClosed"),
        other => panic!("unexpected action {:?}", other),
    }
    assert_eq!(last_kind(&s), DeviceEventType::Error("recv: TcpStreamClosed".to_string()));
}

#[test]
fn batch_summary_lists_commands() {
    let msgs = vec![
        DeviceMessage { command: Some(CommandKind::DpQuery), payload: MessagePayload::Other },
        DeviceMessage { command: None, payload: MessagePayload::Other },
        DeviceMessage { command: Some(CommandKind::Other("HeartBeat".to_string())), payload: MessagePayload::Other },
    ];
    assert_eq!(summarize_batch(&msgs), "Some(DpQuery), None, Some(HeartBeat)");
    assert_eq!(summarize_batch(&vec![]), "");
}

#[test]
fn backoff_doubles_to_the_limit_and_resets() {
    let mut s = state();
    let mut b = ReconnectBackoff::new();
    let mut slept = Vec::new();
    for _ in 0..8 {
        let step = b.after_session(&mut s, Err("connect refused".to_string()));
        assert!(step.dump.is_none());
        slept.push(step.sleep_ms);
    }
    assert_eq!(slept, vec![1000, 2000, 4000, 8000, 16000, 32000, 60000, 60000]);
    let step = b.after_session(&mut s, Err("Data was incomplete".to_string()));
    assert_eq!(step.sleep_ms, 1000);
    assert_eq!(b.delay_ms(), 2000);
    let step = b.after_session(&mut s, Ok(()));
    assert_eq!(step.sleep_ms, 0);
    assert!(!step.disconnect);
    assert_eq!(b.delay_ms(), 1000);
}

#[test]
fn error_classification() {
    assert!(is_device_failure_error("Bad read from TcpStream: eof"));
    assert!(is_device_failure_error("heartbeat timeout"));
    assert!(!is_device_failure_error("poll timeout"));
    assert!(is_transient_error("frame still contains data after parsing"));
    assert!(is_transient_error("InvalidSessionKey"));
    assert!(!is_transient_error("TcpStreamClosed"));
}

#[test]
fn scheduler_delays() {
    assert_eq!(poll_delay_from(0), 15_000);
    assert_eq!(poll_delay_from(2_000), 17_000);
    assert_eq!(poll_delay_from(2_001), 15_000);
    assert_eq!(heartbeat_delay_from(5_000), 20_000);
    assert_eq!(heartbeat_delay_from(12_345), 15_000 + 12_345 % 5_001);
    let p = next_poll_delay();
    assert!((15_000..=17_000).contains(&p));
    let h = next_heartbeat_delay();
    assert!((15_000..=20_000).contains(&h));
}

#[test]
fn bus_names() {
    assert_eq!(command_topic("home/+"), "home/+/set");
    assert_eq!(client_id_from("bridge", "abc"), "bridge-abc");
    let id = client_id("bridge");
    assert_eq!(id.len(), "bridge-".len() + 8);
    assert!(id.starts_with("bridge-"));
    assert!(id["bridge-".len()..].chars().all(|c| c.is_ascii_alphanumeric()));
}
