use tuya_bridge::text::replace_first_char;
use tuya_bridge::timeline::{clock_time, DeviceEvent, DeviceEventLog, DeviceEventType, EVENT_LOG_CAPACITY};

fn log() -> DeviceEventLog {
    DeviceEventLog::new("Lamp".to_string(), "L1".to_string(), "3.4".to_string())
}

fn event(i: u64, kind: DeviceEventType) -> DeviceEvent {
    DeviceEvent { timestamp: 1_700_000_000_000 + i, instant: i, event_type: kind }
}

#[test]
fn ring_keeps_most_recent() {
    let mut l = log();
    for i in 0..150u64 {
        l.record(event(i, DeviceEventType::PollSent));
    }
    assert_eq!(l.len(), EVENT_LOG_CAPACITY);
    for i in 0..100 {
        assert_eq!(l.event(i).instant, 50 + i as u64);
    }
}

#[test]
fn ring_below_capacity_keeps_all() {
    let mut l = log();
    l.log(DeviceEventType::Connected);
    l.log(DeviceEventType::HeartbeatSent);
    assert_eq!(l.len(), 2);
    assert_eq!(l.event(0).event_type, DeviceEventType::Connected);
    assert_eq!(l.event(1).event_type, DeviceEventType::HeartbeatSent);
}

#[test]
fn event_texts() {
    assert_eq!(DeviceEventType::Connected.describe(), "CONNECTED");
    assert_eq!(DeviceEventType::CommandSent("{\"20\":true}".to_string()).describe(), "COMMAND_SENT: {\"20\":true}");
    assert_eq!(DeviceEventType::Throttled { delayed_ms: 250 }.describe(), "THROTTLED: delayed 250ms");
    assert_eq!(
        DeviceEventType::HeartbeatSkipped { last_activity_ms: 0 }.describe(),
        "HEARTBEAT_SKIPPED: last activity 0ms ago"
    );
    assert_eq!(DeviceEventType::Timeout("poll".to_string()).describe(), "TIMEOUT: poll");
    assert_eq!(DeviceEventType::ReceiveTimeout.describe(), "RECEIVE_TIMEOUT");
}

#[test]
fn clock_of_day() {
    assert_eq!(clock_time(0), "00:00:00.000");
    assert_eq!(clock_time(86_400_000 + 13 * 3_600_000 + 5 * 60_000 + 7_000 + 42), "13:05:07.042");
}

#[test]
fn dump_layout() {
    let mut l = log();
    l.record(event(100, DeviceEventType::Connected));
    l.record(event(1100, DeviceEventType::CommandSent("{}".to_string())));
    l.record(event(1050, DeviceEventType::Error("x".to_string())));
    let lines = l.dump_lines_at("heartbeat failed", "2024-01-01T00:00:00+00:00");
    assert_eq!(lines[0], "");
    assert_eq!(lines[1], "=".repeat(80));
    assert_eq!(lines[2], "DEVICE FAILURE TIMELINE DUMP");
    assert_eq!(lines[4], "Device Name: Lamp");
    assert_eq!(lines[7], "Failure Reason: heartbeat failed");
    assert_eq!(lines[8], "Dump Time: 2024-01-01T00:00:00+00:00");
    assert_eq!(lines[9], "Total Events: 3");
    assert_eq!(lines[13], "[0000] +     100ms | 22:13:20.100 | CONNECTED");
    assert_eq!(lines[15], "[0002] +    1050ms | 22:13:21.050 | ERROR: x");
    assert_eq!(lines[16], "-".repeat(80));
    assert_eq!(lines[17], "SUMMARY:");
    assert_eq!(lines[20], "  Commands: 1");
    assert_eq!(lines[21], "  Errors: 1");
    assert_eq!(lines[25], "INTER-EVENT TIMING (last 10):");
    assert_eq!(lines[26], "  COMMAND_SENT: {} -> ERROR: x : 0ms");
    assert_eq!(lines[27], "  CONNECTED -> COMMAND_SENT: {} : 1000ms");
    assert_eq!(lines[28], "=".repeat(80));
    assert_eq!(lines[29], "");
    assert_eq!(lines.len(), 30);
}

#[test]
fn dump_of_one_event_has_no_timing() {
    let mut l = log();
    l.record(event(5, DeviceEventType::PollSent));
    let lines = l.dump_timeline("Receive timeout - connection stale");
    assert_eq!(lines.len(), 13 + 1 + 8 + 2);
    assert_eq!(lines[17], "  Polls: 1");
}

#[test]
fn placeholder_replaced_once() {
    assert_eq!(replace_first_char("a+b+c", '+', "XY"), "aXYb+c");
    assert_eq!(replace_first_char("abc", '+', "XY"), "abc");
}
