//! Conversion between the lamp state of the bus and the device's DP map.
use crate::config::{power_field, TuyaDeviceConfig};
use crate::dps::{
    has_key, insert_entry, lemma_lookup_insert_other, lemma_lookup_insert_same, lookup, DpEntries,
    DpMap, DpVal, DpValue,
};
use crate::mqtt::{
    default_capabilities, Capabilities, Ct, DeviceColor, Hs, LampState, MqttDevice, LEVEL_ONE,
    MAX_SUPPORTED_CT, MIN_SUPPORTED_CT,
};
use crate::text::{digit_char, hex4, hex_value, parse_hex4, push_hex4, read_hex4};
use vstd::prelude::*;
use vstd::string::*;

verus! {

/// The advisory transition time reported with every decoded state.
pub const TRANSITION_MS: u32 = 500;

/// The kind of a message of the device protocol, as far as decoding tells
/// them apart.
#[derive(Clone, Debug, PartialEq, Eq)]
pub enum CommandKind {
    DpQuery,
    DpQueryNew,
    ControlNew,
    /// Any other command, by its protocol name.
    Other(String),
}

/// What a message of the device carries.
#[derive(Clone, Debug, PartialEq, Eq)]
pub enum MessagePayload {
    /// An already decoded payload, with its DPs if it has any.
    Struct(Option<DpMap>),
    /// A text payload, with the DPs of its JSON form `{"dps": {...}}` if it
    /// has that form.
    Text(Option<DpMap>),
    /// Anything else.
    Other,
}

/// One message of the device.
#[derive(Clone, Debug, PartialEq, Eq)]
pub struct DeviceMessage {
    pub command: Option<CommandKind>,
    pub payload: MessagePayload,
}

/// Why a batch of messages yields no lamp state.
#[derive(Clone, Copy, Debug, PartialEq, Eq, Structural)]
pub enum DecodeError {
    /// The batch holds no message.
    EmptyBatch,
    /// The device answered a control command; the batch that follows is an
    /// echo to be discarded.
    IgnoreNext,
    /// A text payload of a command that carries no state.
    UnexpectedCommand,
    /// A payload that is neither decoded nor text.
    UnexpectedPayload,
    /// The message has no DPs.
    NoDps,
    /// Colour mode without the colour DP.
    MissingColor,
    /// A colour DP that is not twelve hexadecimal digits.
    BadColor,
    /// White mode without the colour temperature DP.
    MissingColorTemp,
    /// A colour temperature DP that is not a non-negative integer.
    BadColorTemp,
    /// White mode without the brightness DP.
    MissingBrightness,
    /// A brightness DP that is not a non-negative integer.
    BadBrightness,
}

/// The DPs of a batch: those of its first message.
pub open spec fn batch_dps(messages: Seq<DeviceMessage>) -> Result<DpEntries, DecodeError> {
    if messages.len() == 0 {
        Err(DecodeError::EmptyBatch)
    } else {
        let first = messages[0];
        match first.payload {
            MessagePayload::Struct(dps) => match dps {
                Some(m) => Ok(m@),
                None => Err(DecodeError::NoDps),
            },
            MessagePayload::Text(dps) => match first.command {
                Some(CommandKind::ControlNew) => Err(DecodeError::IgnoreNext),
                Some(CommandKind::DpQuery) | Some(CommandKind::DpQueryNew) => match dps {
                    Some(m) => Ok(m@),
                    None => Err(DecodeError::NoDps),
                },
                _ => Err(DecodeError::UnexpectedCommand),
            },
            MessagePayload::Other => Err(DecodeError::UnexpectedPayload),
        }
    }
}

/// Hue, saturation and value of a colour DP: three groups of four
/// hexadecimal digits at its start.
pub open spec fn colour_fields(t: Seq<char>) -> Option<(nat, nat, nat)> {
    if t.len() < 12 {
        None
    } else {
        match (
            parse_hex4(t.subrange(0, 4)),
            parse_hex4(t.subrange(4, 8)),
            parse_hex4(t.subrange(8, 12)),
        ) {
            (Some(h), Some(s), Some(v)) => Some((h, s, v)),
            _ => None,
        }
    }
}

/// The kelvin of a colour temperature DP in `0..=1000` (larger values count
/// as 1000), rounded to the nearest integer.
pub open spec fn kelvin_of(ct: u64) -> u16 {
    let c: int = if ct > 1000 { 1000 } else { ct as int };
    (MIN_SUPPORTED_CT + (38 * c + 5) / 10) as u16
}

/// The brightness level of a brightness DP in `10..=1000` (values outside
/// count as the nearest bound).
pub open spec fn brightness_level(v: u64) -> u32 {
    let c: int = if v < 10 {
        10
    } else if v > 1000 {
        1000
    } else {
        v as int
    };
    ((c - 10) * 100) as u32
}

/// Colour and brightness in colour mode: from the colour DP.
pub open spec fn decode_colour_mode(dps: DpEntries) -> Result<(Option<DeviceColor>, Option<u32>), DecodeError> {
    match lookup(dps, "24"@) {
        None => Err(DecodeError::MissingColor),
        Some(DpVal::Text(t)) => match colour_fields(t) {
            Some((h, s, v)) => Ok(
                (
                    Some(DeviceColor::Hs(Hs { h: h as u16, s: (s * 99) as u32 })),
                    Some((v * 99) as u32),
                ),
            ),
            None => Err(DecodeError::BadColor),
        },
        Some(_) => Err(DecodeError::BadColor),
    }
}

/// Colour and brightness in white mode: from the colour temperature DP and
/// the brightness DP.
pub open spec fn decode_white_mode(dps: DpEntries) -> Result<(Option<DeviceColor>, Option<u32>), DecodeError> {
    match lookup(dps, "23"@) {
        None => Err(DecodeError::MissingColorTemp),
        Some(DpVal::Unsigned(c)) => match lookup(dps, "22"@) {
            None => Err(DecodeError::MissingBrightness),
            Some(DpVal::Unsigned(b)) => Ok(
                (Some(DeviceColor::Ct(Ct { ct: kelvin_of(c) })), Some(brightness_level(b))),
            ),
            Some(_) => Err(DecodeError::BadBrightness),
        },
        Some(_) => Err(DecodeError::BadColorTemp),
    }
}

/// Colour and brightness, read as the mode DP says; neither in another mode.
pub open spec fn decode_color(dps: DpEntries) -> Result<(Option<DeviceColor>, Option<u32>), DecodeError> {
    let mode = lookup(dps, "21"@);
    if mode == Some(DpVal::Text("colour"@)) {
        decode_colour_mode(dps)
    } else if mode == Some(DpVal::Text("white"@)) {
        decode_white_mode(dps)
    } else {
        Ok((None, None))
    }
}

/// The lamp state that a DP map reports.
pub open spec fn decode_dps(dps: DpEntries, config: TuyaDeviceConfig) -> Result<LampState, DecodeError> {
    match decode_color(dps) {
        Err(e) => Err(e),
        Ok((color, brightness)) => Ok(
            LampState {
                id: config.id@,
                name: Some(config.name@),
                power: Some(
                    match lookup(dps, power_field(config)) {
                        Some(DpVal::Bool(p)) => p,
                        _ => true,
                    },
                ),
                brightness,
                color,
                transition_ms: Some(TRANSITION_MS),
                sensor_value: None,
                capabilities: Some(
                    match config.capabilities {
                        Some(c) => c,
                        None => default_capabilities(),
                    },
                ),
                raw: Some(dps),
            },
        ),
    }
}

/// The lamp state that a batch of messages reports.
pub open spec fn decode_batch(messages: Seq<DeviceMessage>, config: TuyaDeviceConfig) -> Result<LampState, DecodeError> {
    match batch_dps(messages) {
        Err(e) => Err(e),
        Ok(dps) => decode_dps(dps, config),
    }
}

/// The brightness DP of a brightness level: `floor(b * 990) + 10`, at most 1000.
pub open spec fn brightness_dp(b: u32) -> u64 {
    if b / 100 + 10 > 1000 {
        1000
    } else {
        (b / 100 + 10) as u64
    }
}

/// `n`, saturated to the largest `i16`.
pub open spec fn saturate_i16(n: nat) -> nat {
    if n > 32767 {
        32767
    } else {
        n
    }
}

/// The colour DP of a hue and saturation at a brightness: hue, saturation
/// and value as four hexadecimal digits each. The value is the brightness
/// (full where absent), capped by the device's highest brightness.
pub open spec fn color_text(c: Hs, brightness: Option<u32>, max_brightness: Option<u32>) -> Seq<char> {
    let b: nat = match brightness {
        Some(b) => b as nat,
        None => LEVEL_ONE as nat,
    };
    let cap: nat = match max_brightness {
        Some(m) => m as nat,
        None => LEVEL_ONE as nat,
    };
    let v: nat = if b < cap {
        b
    } else {
        cap
    };
    hex4(saturate_i16(c.h as nat)) + hex4(saturate_i16(c.s as nat / 99)) + hex4(
        saturate_i16(v / 99),
    )
}

/// The colour temperature DP of a kelvin: its place between the lowest and
/// the highest supported temperature, clamped to `[0, 1]`, in thousandths.
pub open spec fn ct_dp(kelvin: u16) -> u64 {
    if kelvin <= MIN_SUPPORTED_CT {
        0
    } else if kelvin >= MAX_SUPPORTED_CT {
        1000
    } else {
        ((kelvin - MIN_SUPPORTED_CT) * 10 / 38) as u64
    }
}

/// The DP map that sets a lamp to `d`: power, brightness, then the colour and
/// last the mode.
pub open spec fn encode_state(d: LampState, config: TuyaDeviceConfig) -> DpEntries {
    let m0 = Seq::<(Seq<char>, DpVal)>::empty();
    let m1 = match d.power {
        Some(p) => insert_entry(m0, power_field(config), DpVal::Bool(p)),
        None => m0,
    };
    let m2 = match d.brightness {
        Some(b) => insert_entry(m1, "22"@, DpVal::Unsigned(brightness_dp(b))),
        None => m1,
    };
    match d.color {
        Some(DeviceColor::Hs(c)) => insert_entry(
            insert_entry(m2, "24"@, DpVal::Text(color_text(c, d.brightness, config.max_brightness))),
            "21"@,
            DpVal::Text("colour"@),
        ),
        Some(DeviceColor::Ct(c)) => insert_entry(
            insert_entry(m2, "23"@, DpVal::Unsigned(ct_dp(c.ct))),
            "21"@,
            DpVal::Text("white"@),
        ),
        None => m2,
    }
}

/// The DPs of the first message of a batch.
fn first_dps(messages: Vec<DeviceMessage>) -> (r: Result<DpMap, DecodeError>)
    ensures
        r matches Ok(m) ==> batch_dps(messages@) == Ok::<DpEntries, DecodeError>(m@),
        r matches Err(e) ==> batch_dps(messages@) == Err::<DpEntries, DecodeError>(e),
{
    let mut messages = messages;
    if messages.len() == 0 {
        return Err(DecodeError::EmptyBatch);
    }
    let first = messages.remove(0);
    match first.payload {
        MessagePayload::Struct(dps) => match dps {
            Some(m) => Ok(m),
            None => Err(DecodeError::NoDps),
        },
        MessagePayload::Text(dps) => match first.command {
            Some(CommandKind::ControlNew) => Err(DecodeError::IgnoreNext),
            Some(CommandKind::DpQuery) | Some(CommandKind::DpQueryNew) => match dps {
                Some(m) => Ok(m),
                None => Err(DecodeError::NoDps),
            },
            _ => Err(DecodeError::UnexpectedCommand),
        },
        MessagePayload::Other => Err(DecodeError::UnexpectedPayload),
    }
}

/// Whether `v` is the text `word`.
fn is_text(v: Option<&DpValue>, word: &str) -> (r: bool)
    ensures
        r == (v matches Some(x) && x@ == DpVal::Text(word@)),
{
    match v {
        Some(DpValue::Text(t)) => *t == String::from_str(word),
        _ => false,
    }
}

/// Colour and brightness in colour mode.
fn read_colour_mode(dps: &DpMap) -> (r: Result<(Option<DeviceColor>, Option<u32>), DecodeError>)
    ensures
        r == decode_colour_mode(dps@),
{
    match dps.get("24") {
        None => Err(DecodeError::MissingColor),
        Some(DpValue::Text(t)) => {
            let t = t.as_str();
            if t.unicode_len() < 12 {
                return Err(DecodeError::BadColor);
            }
            match (read_hex4(t, 0), read_hex4(t, 4), read_hex4(t, 8)) {
                (Some(h), Some(s), Some(v)) => Ok(
                    (Some(DeviceColor::Hs(Hs { h, s: s as u32 * 99 })), Some(v as u32 * 99)),
                ),
                _ => Err(DecodeError::BadColor),
            }
        },
        Some(_) => Err(DecodeError::BadColor),
    }
}

/// The kelvin of a colour temperature DP.
fn kelvin_from_dp(c: u64) -> (r: u16)
    ensures
        r == kelvin_of(c),
{
    let c: u64 = if c > 1000 {
        1000
    } else {
        c
    };
    (MIN_SUPPORTED_CT as u64 + (38 * c + 5) / 10) as u16
}

/// The brightness level of a brightness DP.
fn level_from_brightness_dp(b: u64) -> (r: u32)
    ensures
        r == brightness_level(b),
{
    let b: u64 = if b < 10 {
        10
    } else if b > 1000 {
        1000
    } else {
        b
    };
    ((b - 10) * 100) as u32
}

/// Colour and brightness in white mode.
fn read_white_mode(dps: &DpMap) -> (r: Result<(Option<DeviceColor>, Option<u32>), DecodeError>)
    ensures
        r == decode_white_mode(dps@),
{
    match dps.get("23") {
        None => Err(DecodeError::MissingColorTemp),
        Some(DpValue::Unsigned(c)) => match dps.get("22") {
            None => Err(DecodeError::MissingBrightness),
            Some(DpValue::Unsigned(b)) => Ok(
                (
                    Some(DeviceColor::Ct(Ct { ct: kelvin_from_dp(*c) })),
                    Some(level_from_brightness_dp(*b)),
                ),
            ),
            Some(_) => Err(DecodeError::BadBrightness),
        },
        Some(_) => Err(DecodeError::BadColorTemp),
    }
}

/// Colour and brightness, read as the mode DP says.
fn read_color(dps: &DpMap) -> (r: Result<(Option<DeviceColor>, Option<u32>), DecodeError>)
    ensures
        r == decode_color(dps@),
{
    let mode = dps.get("21");
    if is_text(mode, "colour") {
        read_colour_mode(dps)
    } else if is_text(mode, "white") {
        read_white_mode(dps)
    } else {
        Ok((None, None))
    }
}

/// Reads the lamp state that a batch of device messages reports.
///
/// The first message decides. A decoded payload gives its DPs; a text
/// payload gives them for the query commands, asks to drop the next batch
/// for a control command, and is refused for any other. From the DPs: power
/// from the power DP (on where it holds no boolean); colour and brightness
/// as the mode DP says; a fixed transition; the configured capabilities;
/// and the DP map itself as `raw`.
pub fn tuya_to_mqtt(messages: Vec<DeviceMessage>, config: &TuyaDeviceConfig) -> (r: Result<MqttDevice, DecodeError>)
    ensures
        r matches Ok(d) ==> decode_batch(messages@, *config) == Ok::<LampState, DecodeError>(d@),
        r matches Err(e) ==> decode_batch(messages@, *config) == Err::<LampState, DecodeError>(e),
{
    let dps = match first_dps(messages) {
        Ok(m) => m,
        Err(e) => return Err(e),
    };
    let (color, brightness) = match read_color(&dps) {
        Ok(found) => found,
        Err(e) => return Err(e),
    };
    let power = match dps.get(config.power_dp()) {
        Some(DpValue::Bool(p)) => *p,
        _ => true,
    };
    let capabilities = match &config.capabilities {
        Some(c) => c.copied(),
        None => Capabilities::default(),
    };
    Ok(
        MqttDevice {
            id: config.id.clone(),
            name: Some(config.name.clone()),
            power: Some(power),
            brightness,
            color,
            transition_ms: Some(TRANSITION_MS),
            sensor_value: None,
            capabilities: Some(capabilities),
            raw: Some(dps),
        },
    )
}

/// The colour DP of a hue and saturation at a brightness.
fn color_dp(c: Hs, brightness: Option<u32>, max_brightness: Option<u32>) -> (r: String)
    ensures
        r@ == color_text(c, brightness, max_brightness),
{
    let b = match brightness {
        Some(b) => b,
        None => LEVEL_ONE,
    };
    let cap = match max_brightness {
        Some(m) => m,
        None => LEVEL_ONE,
    };
    let v = if b < cap {
        b
    } else {
        cap
    };
    let hue: u16 = if c.h > 32767 {
        32767
    } else {
        c.h
    };
    let sat: u16 = if c.s / 99 > 32767 {
        32767
    } else {
        (c.s / 99) as u16
    };
    let val: u16 = if v / 99 > 32767 {
        32767
    } else {
        (v / 99) as u16
    };
    let mut text = String::new();
    push_hex4(&mut text, hue);
    push_hex4(&mut text, sat);
    push_hex4(&mut text, val);
    assert(text@ =~= color_text(c, brightness, max_brightness));
    text
}

/// Builds the DP map that sets a lamp to the state that the bus asked for.
///
/// In this order: power at the power DP; brightness as `floor(b * 990) + 10`
/// at most 1000; then for a hue and saturation the colour DP followed by the
/// mode "colour", or for a colour temperature its DP followed by the mode
/// "white". The mode comes last: the lamps apply a colour only then.
pub fn mqtt_to_tuya(mqtt_device: MqttDevice, device_config: &TuyaDeviceConfig) -> (r: DpMap)
    ensures
        r@ == encode_state(mqtt_device@, *device_config),
{
    let mut dps = DpMap::new();
    if let Some(power) = mqtt_device.power {
        dps.insert(String::from_str(device_config.power_dp()), DpValue::Bool(power));
    }
    if let Some(brightness) = mqtt_device.brightness {
        let level: u64 = if brightness / 100 + 10 > 1000 {
            1000
        } else {
            (brightness / 100 + 10) as u64
        };
        dps.insert(String::from_str("22"), DpValue::Unsigned(level));
    }
    match mqtt_device.color {
        Some(DeviceColor::Hs(c)) => {
            let text = color_dp(c, mqtt_device.brightness, device_config.max_brightness);
            dps.insert(String::from_str("24"), DpValue::Text(text));
            dps.insert(String::from_str("21"), DpValue::Text(String::from_str("colour")));
        },
        Some(DeviceColor::Ct(c)) => {
            let ct: u64 = if c.ct <= MIN_SUPPORTED_CT {
                0
            } else if c.ct >= MAX_SUPPORTED_CT {
                1000
            } else {
                ((c.ct - MIN_SUPPORTED_CT) as u64 * 10 / 38) as u64
            };
            dps.insert(String::from_str("23"), DpValue::Unsigned(ct));
            dps.insert(String::from_str("21"), DpValue::Text(String::from_str("white")));
        },
        None => {},
    }
    dps
}

/// The DP ids of the codec, and its two modes, are distinct texts.
proof fn lemma_distinct_ids()
    ensures
        "21"@ != "22"@,
        "21"@ != "23"@,
        "21"@ != "24"@,
        "22"@ != "23"@,
        "22"@ != "24"@,
        "23"@ != "24"@,
        "white"@ != "colour"@,
{
    reveal_strlit("21");
    reveal_strlit("22");
    reveal_strlit("23");
    reveal_strlit("24");
    reveal_strlit("colour");
    reveal_strlit("white");
    assert("21"@[1] != "22"@[1]);
    assert("21"@[1] != "23"@[1]);
    assert("21"@[1] != "24"@[1]);
    assert("22"@[1] != "23"@[1]);
    assert("22"@[1] != "24"@[1]);
    assert("23"@[1] != "24"@[1]);
    assert("white"@[0] != "colour"@[0]);
}

/// A digit read back gives its value.
proof fn lemma_digit_value(d: nat)
    requires
        d < 16,
    ensures
        hex_value(digit_char(d)) == Some(d),
{
}

/// Four hexadecimal digits read back give the number they were written from.
pub proof fn lemma_hex4_parses(v: nat)
    requires
        v < 0x10000,
    ensures
        parse_hex4(hex4(v)) == Some(v),
{
    lemma_digit_value((v / 4096) % 16);
    lemma_digit_value((v / 256) % 16);
    lemma_digit_value((v / 16) % 16);
    lemma_digit_value(v % 16);
    let w = v as u64;
    assert((((w / 4096) % 16 * 16 + (w / 256) % 16) * 16 + (w / 16) % 16) * 16 + w % 16 == w)
        by (bit_vector)
        requires
            w < 0x10000,
    ;
}

/// The map of `encode_state` before the colour entries: power, then brightness.
pub open spec fn encode_head(d: LampState, config: TuyaDeviceConfig) -> DpEntries {
    let m0 = Seq::<(Seq<char>, DpVal)>::empty();
    let m1 = match d.power {
        Some(p) => insert_entry(m0, power_field(config), DpVal::Bool(p)),
        None => m0,
    };
    match d.brightness {
        Some(b) => insert_entry(m1, "22"@, DpVal::Unsigned(brightness_dp(b))),
        None => m1,
    }
}

/// The power and brightness entries hold no other key than the power DP and
/// the brightness DP; the power DP holds the power asked for, if any.
proof fn lemma_encode_head(d: LampState, config: TuyaDeviceConfig, key: Seq<char>)
    requires
        key != power_field(config),
        key != "22"@,
    ensures
        !has_key(encode_head(d, config), key),
        power_field(config) != "22"@ ==> lookup(encode_head(d, config), power_field(config))
            == match d.power {
            Some(p) => Some(DpVal::Bool(p)),
            None => None::<DpVal>,
        },
{
    let m0 = Seq::<(Seq<char>, DpVal)>::empty();
    let m1 = match d.power {
        Some(p) => insert_entry(m0, power_field(config), DpVal::Bool(p)),
        None => m0,
    };
    if let Some(p) = d.power {
        lemma_lookup_insert_other(m0, power_field(config), DpVal::Bool(p), key);
        lemma_lookup_insert_same(m0, power_field(config), DpVal::Bool(p));
    }
    if let Some(b) = d.brightness {
        lemma_lookup_insert_other(m1, "22"@, DpVal::Unsigned(brightness_dp(b)), key);
        if power_field(config) != "22"@ {
            lemma_lookup_insert_other(
                m1,
                "22"@,
                DpVal::Unsigned(brightness_dp(b)),
                power_field(config),
            );
        }
    }
}

/// Where the encoded map holds the mode DP, it is the last entry, for every
/// lamp state; provided that the device's power DP is not the mode DP.
pub proof fn lemma_mode_dp_last(d: LampState, config: TuyaDeviceConfig)
    requires
        power_field(config) != "21"@,
    ensures
        forall|i: int|
            0 <= i < encode_state(d, config).len() && #[trigger] encode_state(d, config)[i].0
                == "21"@ ==> i == encode_state(d, config).len() - 1,
{
    lemma_distinct_ids();
    let m2 = encode_head(d, config);
    lemma_encode_head(d, config, "21"@);
    match d.color {
        Some(DeviceColor::Hs(c)) => {
            let v = DpVal::Text(color_text(c, d.brightness, config.max_brightness));
            lemma_lookup_insert_other(m2, "24"@, v, "21"@);
            let m3 = insert_entry(m2, "24"@, v);
            assert(!has_key(m3, "21"@));
            assert(encode_state(d, config) == m3.push(("21"@, DpVal::Text("colour"@))));
        },
        Some(DeviceColor::Ct(c)) => {
            let v = DpVal::Unsigned(ct_dp(c.ct));
            lemma_lookup_insert_other(m2, "23"@, v, "21"@);
            let m3 = insert_entry(m2, "23"@, v);
            assert(!has_key(m3, "21"@));
            assert(encode_state(d, config) == m3.push(("21"@, DpVal::Text("white"@))));
        },
        None => {
            assert(encode_state(d, config) == m2);
        },
    }
}

/// A colour temperature is sent as a DP in `0..=1000`, whatever the kelvin.
pub proof fn lemma_ct_dp_clamped(d: LampState, config: TuyaDeviceConfig)
    requires
        d.color matches Some(DeviceColor::Ct(_)),
    ensures
        lookup(encode_state(d, config), "23"@) matches Some(DpVal::Unsigned(x)) && x <= 1000,
{
    lemma_distinct_ids();
    let c = d.color->0->Ct_0;
    let m2 = encode_head(d, config);
    let v = DpVal::Unsigned(ct_dp(c.ct));
    lemma_lookup_insert_same(m2, "23"@, v);
    lemma_lookup_insert_other(insert_entry(m2, "23"@, v), "21"@, DpVal::Text("white"@), "23"@);
    if MIN_SUPPORTED_CT < c.ct && c.ct < MAX_SUPPORTED_CT {
        let k = c.ct as int;
        assert((k - 2700) * 10 / 38 <= 1000) by (nonlinear_arith)
            requires
                2700 < k < 6500,
        ;
    }
}

/// The colour temperature that a kelvin in the supported range comes back
/// as: at most that kelvin, and less by no more than one step of 3.8 K.
proof fn lemma_kelvin_round_trip(k: u16)
    requires
        MIN_SUPPORTED_CT <= k <= MAX_SUPPORTED_CT,
    ensures
        ct_dp(k) <= 1000,
        kelvin_of(ct_dp(k)) <= k <= kelvin_of(ct_dp(k)) + 4,
{
    let x = k as int - 2700;
    let d = x * 10 / 38;
    assert(0 <= d <= 1000 && 38 * d <= 10 * x < 38 * d + 38) by (nonlinear_arith)
        requires
            0 <= x <= 3800,
            d == x * 10 / 38,
    ;
    assert(ct_dp(k) == d);
    let y = (38 * d + 5) / 10;
    assert(y <= x <= y + 4) by (nonlinear_arith)
        requires
            38 * d <= 10 * x < 38 * d + 38,
            y == (38 * d + 5) / 10,
            d >= 0,
    ;
}

/// Decoding the one-message batch that carries an encoded DP map gives back
/// the lamp state, up to the device's steps: hue exactly, saturation and
/// colour brightness in thousandths, white brightness in steps of 1/990,
/// colour temperature in steps of 3.8 K; an absent power reads as on. It
/// holds for states with a brightness and a colour within their ranges, on
/// devices whose power DP is none of the colour DPs.
pub proof fn lemma_round_trip(d: LampState, config: TuyaDeviceConfig, messages: Seq<DeviceMessage>)
    requires
        messages.len() == 1,
        messages[0].payload matches MessagePayload::Struct(Some(m)) && m@ == encode_state(
            d,
            config,
        ),
        d.brightness matches Some(b) && b <= LEVEL_ONE,
        d.color matches Some(c) && match c {
            DeviceColor::Hs(hs) => hs.h <= 360 && hs.s <= LEVEL_ONE,
            DeviceColor::Ct(ct) => MIN_SUPPORTED_CT <= ct.ct <= MAX_SUPPORTED_CT,
        },
        power_field(config) != "21"@,
        power_field(config) != "22"@,
        power_field(config) != "23"@,
        power_field(config) != "24"@,
    ensures
        decode_batch(messages, config) matches Ok(r) && r.power == Some(
            match d.power {
                Some(p) => p,
                None => true,
            },
        ) && match d.color->0 {
            DeviceColor::Hs(hs) => {
                let b = d.brightness->0;
                let v = match config.max_brightness {
                    Some(cap) => if cap < b {
                        cap
                    } else {
                        b
                    },
                    None => b,
                };
                &&& r.color == Some(DeviceColor::Hs(Hs { h: hs.h, s: (hs.s / 99 * 99) as u32 }))
                &&& r.brightness == Some((v / 99 * 99) as u32)
            },
            DeviceColor::Ct(ct) => {
                &&& r.color matches Some(DeviceColor::Ct(back)) && back.ct <= ct.ct <= back.ct + 4
                &&& r.brightness == Some((d.brightness->0 / 100 * 100) as u32)
            },
        },
{
    lemma_distinct_ids();
    let dps = encode_state(d, config);
    assert(batch_dps(messages) == Ok::<DpEntries, DecodeError>(dps));
    let m2 = encode_head(d, config);
    let b = d.brightness->0;
    let pw = power_field(config);
    lemma_encode_head(d, config, "21"@);
    lemma_encode_head(d, config, "23"@);
    lemma_encode_head(d, config, "24"@);
    match d.color->0 {
        DeviceColor::Hs(hs) => {
            let t = color_text(hs, d.brightness, config.max_brightness);
            let m3 = insert_entry(m2, "24"@, DpVal::Text(t));
            lemma_lookup_insert_same(m2, "24"@, DpVal::Text(t));
            lemma_lookup_insert_other(m2, "24"@, DpVal::Text(t), pw);
            lemma_lookup_insert_same(m3, "21"@, DpVal::Text("colour"@));
            lemma_lookup_insert_other(m3, "21"@, DpVal::Text("colour"@), "24"@);
            lemma_lookup_insert_other(m3, "21"@, DpVal::Text("colour"@), pw);
            let v: nat = match config.max_brightness {
                Some(cap) => if cap < b {
                    cap as nat
                } else {
                    b as nat
                },
                None => b as nat,
            };
            let h4 = hex4(hs.h as nat);
            let s4 = hex4(hs.s as nat / 99);
            let v4 = hex4(v / 99);
            assert(t == h4 + s4 + v4);
            assert(t.subrange(0, 4) =~= h4);
            assert(t.subrange(4, 8) =~= s4);
            assert(t.subrange(8, 12) =~= v4);
            lemma_hex4_parses(hs.h as nat);
            lemma_hex4_parses(hs.s as nat / 99);
            lemma_hex4_parses(v / 99);
        },
        DeviceColor::Ct(ct) => {
            let m3 = insert_entry(m2, "23"@, DpVal::Unsigned(ct_dp(ct.ct)));
            let white = DpVal::Text("white"@);
            lemma_lookup_insert_same(m2, "23"@, DpVal::Unsigned(ct_dp(ct.ct)));
            lemma_lookup_insert_other(m2, "23"@, DpVal::Unsigned(ct_dp(ct.ct)), pw);
            lemma_lookup_insert_other(m2, "23"@, DpVal::Unsigned(ct_dp(ct.ct)), "22"@);
            lemma_lookup_insert_same(m3, "21"@, white);
            lemma_lookup_insert_other(m3, "21"@, white, "23"@);
            lemma_lookup_insert_other(m3, "21"@, white, "22"@);
            lemma_lookup_insert_other(m3, "21"@, white, pw);
            lemma_kelvin_round_trip(ct.ct);
            let m1 = match d.power {
                Some(p) => insert_entry(Seq::empty(), pw, DpVal::Bool(p)),
                None => Seq::empty(),
            };
            lemma_lookup_insert_same(m1, "22"@, DpVal::Unsigned(brightness_dp(b)));
            assert(brightness_level(brightness_dp(b)) == b / 100 * 100);
            assert(DpVal::Text("white"@) != DpVal::Text("colour"@));
        },
    }
}

} // verus!
