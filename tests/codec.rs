use tuya_bridge::codec::{
    mqtt_to_tuya, tuya_to_mqtt, CommandKind, DecodeError, DeviceMessage, MessagePayload,
};
use tuya_bridge::config::TuyaDeviceConfig;
use tuya_bridge::dps::{DpMap, DpValue};
use tuya_bridge::mqtt::{Capabilities, Ct, DeviceColor, Hs, MqttDevice, LEVEL_ONE};

fn config() -> TuyaDeviceConfig {
    TuyaDeviceConfig {
        name: "Lamp".to_string(),
        id: "L1".to_string(),
        local_key: "key".to_string(),
        ip: "10.0.0.2".to_string(),
        version: "3.4".to_string(),
        max_brightness: None,
        power_on_field: None,
        capabilities: None,
        topic: None,
    }
}

fn command(id: &str) -> MqttDevice {
    MqttDevice {
        id: id.to_string(),
        name: None,
        power: None,
        brightness: None,
        color: None,
        transition_ms: None,
        sensor_value: None,
        capabilities: None,
        raw: None,
    }
}

fn entries(m: &DpMap) -> Vec<(String, DpValue)> {
    (0..m.len()).map(|i| (m.key(i).to_string(), m.value(i).clone())).collect()
}

fn text(s: &str) -> DpValue {
    DpValue::Text(s.to_string())
}

fn map(items: Vec<(&str, DpValue)>) -> DpMap {
    let mut m = DpMap::new();
    for (k, v) in items {
        m.insert(k.to_string(), v);
    }
    m
}

fn batch(m: DpMap) -> Vec<DeviceMessage> {
    vec![DeviceMessage { command: Some(CommandKind::DpQuery), payload: MessagePayload::Struct(Some(m)) }]
}

#[test]
fn power_on_lamp() {
    let mut c = command("L1");
    c.power = Some(true);
    let dps = mqtt_to_tuya(c, &config());
    assert_eq!(entries(&dps), vec![("20".to_string(), DpValue::Bool(true))]);
}

#[test]
fn power_on_custom_field() {
    let mut cfg = config();
    cfg.power_on_field = Some("1".to_string());
    let mut c = command("L1");
    c.power = Some(false);
    let dps = mqtt_to_tuya(c, &cfg);
    assert_eq!(entries(&dps), vec![("1".to_string(), DpValue::Bool(false))]);
}

#[test]
fn warm_white_half_brightness() {
    let mut c = command("L1");
    c.brightness = Some(LEVEL_ONE / 2);
    c.color = Some(DeviceColor::Ct(Ct { ct: 2700 }));
    let dps = mqtt_to_tuya(c, &config());
    assert_eq!(
        entries(&dps),
        vec![
            ("22".to_string(), DpValue::Unsigned(505)),
            ("23".to_string(), DpValue::Unsigned(0)),
            ("21".to_string(), text("white")),
        ]
    );
}

#[test]
fn red_full_brightness() {
    let mut c = command("L1");
    c.brightness = Some(LEVEL_ONE);
    c.color = Some(DeviceColor::Hs(Hs { h: 0, s: LEVEL_ONE }));
    let dps = mqtt_to_tuya(c, &config());
    assert_eq!(
        entries(&dps),
        vec![
            ("22".to_string(), DpValue::Unsigned(1000)),
            ("24".to_string(), text("000003e803e8")),
            ("21".to_string(), text("colour")),
        ]
    );
}

#[test]
fn colour_value_capped_by_max_brightness() {
    let mut cfg = config();
    cfg.max_brightness = Some(LEVEL_ONE / 2);
    let mut c = command("L1");
    c.color = Some(DeviceColor::Hs(Hs { h: 360, s: LEVEL_ONE / 2 }));
    let dps = mqtt_to_tuya(c, &cfg);
    assert_eq!(
        entries(&dps),
        vec![("24".to_string(), text("016801f401f4")), ("21".to_string(), text("colour"))]
    );
}

#[test]
fn brightness_clamped_to_device_range() {
    let mut c = command("L1");
    c.brightness = Some(3 * LEVEL_ONE);
    assert_eq!(entries(&mqtt_to_tuya(c, &config())), vec![("22".to_string(), DpValue::Unsigned(1000))]);
    let mut c = command("L1");
    c.brightness = Some(0);
    assert_eq!(entries(&mqtt_to_tuya(c, &config())), vec![("22".to_string(), DpValue::Unsigned(10))]);
}

#[test]
fn colour_temperature_clamped() {
    for (kelvin, dp) in [(1000u16, 0u64), (2700, 0), (4600, 500), (6500, 1000), (10000, 1000)] {
        let mut c = command("L1");
        c.color = Some(DeviceColor::Ct(Ct { ct: kelvin }));
        let dps = mqtt_to_tuya(c, &config());
        assert_eq!(dps.get("23"), Some(&DpValue::Unsigned(dp)));
        assert_eq!(dps.key(dps.len() - 1), "21");
    }
}

#[test]
fn mode_dp_comes_last() {
    let mut c = command("L1");
    c.power = Some(true);
    c.brightness = Some(LEVEL_ONE / 4);
    c.color = Some(DeviceColor::Hs(Hs { h: 200, s: LEVEL_ONE / 3 }));
    let dps = mqtt_to_tuya(c, &config());
    assert_eq!(dps.len(), 4);
    assert_eq!(dps.key(3), "21");
    assert_eq!(dps.key(0), "20");
}

#[test]
fn colour_decode() {
    let m = map(vec![("20", DpValue::Bool(true)), ("21", text("colour")), ("24", text("00780190012c"))]);
    let d = tuya_to_mqtt(batch(m), &config()).unwrap();
    assert_eq!(d.color, Some(DeviceColor::Hs(Hs { h: 120, s: 400 * 99 })));
    assert_eq!(d.brightness, Some(300 * 99));
    assert_eq!(d.power, Some(true));
    assert_eq!(d.id, "L1");
    assert_eq!(d.name, Some("Lamp".to_string()));
    assert_eq!(d.transition_ms, Some(500));
    assert_eq!(d.capabilities, Some(Capabilities::default()));
    assert_eq!(d.raw.unwrap().len(), 3);
}

#[test]
fn white_decode() {
    let m = map(vec![("20", DpValue::Bool(false)), ("21", text("white")), ("22", DpValue::Unsigned(505)), ("23", DpValue::Unsigned(500))]);
    let d = tuya_to_mqtt(batch(m), &config()).unwrap();
    assert_eq!(d.color, Some(DeviceColor::Ct(Ct { ct: 4600 })));
    assert_eq!(d.brightness, Some(49500));
    assert_eq!(d.power, Some(false));
}

#[test]
fn power_defaults_to_on_and_other_mode_has_no_colour() {
    let m = map(vec![("21", text("scene"))]);
    let d = tuya_to_mqtt(batch(m), &config()).unwrap();
    assert_eq!(d.power, Some(true));
    assert_eq!(d.color, None);
    assert_eq!(d.brightness, None);
}

#[test]
fn decode_errors() {
    let cfg = config();
    assert_eq!(tuya_to_mqtt(vec![], &cfg), Err(DecodeError::EmptyBatch));
    let control = DeviceMessage { command: Some(CommandKind::ControlNew), payload: MessagePayload::Text(None) };
    assert_eq!(tuya_to_mqtt(vec![control], &cfg), Err(DecodeError::IgnoreNext));
    let status = DeviceMessage { command: Some(CommandKind::Other("Status".to_string())), payload: MessagePayload::Text(None) };
    assert_eq!(tuya_to_mqtt(vec![status], &cfg), Err(DecodeError::UnexpectedCommand));
    let raw = DeviceMessage { command: Some(CommandKind::DpQuery), payload: MessagePayload::Other };
    assert_eq!(tuya_to_mqtt(vec![raw], &cfg), Err(DecodeError::UnexpectedPayload));
    let empty = DeviceMessage { command: Some(CommandKind::DpQueryNew), payload: MessagePayload::Text(None) };
    assert_eq!(tuya_to_mqtt(vec![empty], &cfg), Err(DecodeError::NoDps));
    let cases = vec![
        (vec![("21", text("colour"))], DecodeError::MissingColor),
        (vec![("21", text("colour")), ("24", DpValue::Unsigned(3))], DecodeError::BadColor),
        (vec![("21", text("colour")), ("24", text("0078019001"))], DecodeError::BadColor),
        (vec![("21", text("colour")), ("24", text("0078019x012c"))], DecodeError::BadColor),
        (vec![("21", text("white"))], DecodeError::MissingColorTemp),
        (vec![("21", text("white")), ("23", text("5"))], DecodeError::BadColorTemp),
        (vec![("21", text("white")), ("23", DpValue::Unsigned(5))], DecodeError::MissingBrightness),
        (vec![("21", text("white")), ("23", DpValue::Unsigned(5)), ("22", DpValue::Signed(-1))], DecodeError::BadBrightness),
    ];
    for (items, err) in cases {
        assert_eq!(tuya_to_mqtt(batch(map(items)), &cfg), Err(err));
    }
}

#[test]
fn text_payload_of_a_query_is_decoded() {
    let m = map(vec![("20", DpValue::Bool(false))]);
    let msg = DeviceMessage { command: Some(CommandKind::DpQueryNew), payload: MessagePayload::Text(Some(m)) };
    let d = tuya_to_mqtt(vec![msg], &config()).unwrap();
    assert_eq!(d.power, Some(false));
}

#[test]
fn round_trip_colour_and_white() {
    let cfg = config();
    let mut c = command("L1");
    c.power = Some(false);
    c.brightness = Some(12_345);
    c.color = Some(DeviceColor::Hs(Hs { h: 359, s: 54_321 }));
    let d = tuya_to_mqtt(batch(mqtt_to_tuya(c, &cfg)), &cfg).unwrap();
    assert_eq!(d.power, Some(false));
    assert_eq!(d.color, Some(DeviceColor::Hs(Hs { h: 359, s: 54_321 / 99 * 99 })));
    assert_eq!(d.brightness, Some(12_345 / 99 * 99));

    let mut c = command("L1");
    c.brightness = Some(77_777);
    c.color = Some(DeviceColor::Ct(Ct { ct: 5003 }));
    let d = tuya_to_mqtt(batch(mqtt_to_tuya(c, &cfg)), &cfg).unwrap();
    assert_eq!(d.power, Some(true));
    assert_eq!(d.brightness, Some(77_700));
    match d.color {
        Some(DeviceColor::Ct(Ct { ct })) => assert!(ct <= 5003 && 5003 <= ct + 4),
        other => panic!("unexpected colour {:?}", other),
    }
}

#[test]
fn map_insert_keeps_place() {
    let mut m = DpMap::new();
    m.insert("21".to_string(), DpValue::Bool(true));
    m.insert("22".to_string(), DpValue::Unsigned(1));
    m.insert("21".to_string(), text("white"));
    assert_eq!(entries(&m), vec![("21".to_string(), text("white")), ("22".to_string(), DpValue::Unsigned(1))]);
    assert_eq!(m.get("23"), None);
}
