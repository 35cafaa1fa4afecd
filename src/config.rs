//! The settings of the bus connection and of each device.
use crate::mqtt::Capabilities;
use vstd::prelude::*;

verus! {

/// The DP that holds the power state, where the device's settings name none.
pub const DEFAULT_POWER_ON_FIELD: &'static str = "20";

/// Where to reach the MQTT broker, and the topic template of the lamps: a `+`
/// in it stands for the device id.
#[derive(Clone, Debug)]
pub struct MqttConfig {
    pub id: String,
    pub host: String,
    pub port: u16,
    pub topic: String,
}

/// The settings of one device.
#[derive(Clone, Debug)]
pub struct TuyaDeviceConfig {
    pub name: String,
    pub id: String,
    pub local_key: String,
    pub ip: String,
    /// The protocol version, such as "3.3" or "3.4".
    pub version: String,
    /// The highest brightness sent with a colour, in units of `1 / LEVEL_ONE`.
    pub max_brightness: Option<u32>,
    /// The DP that holds the power state.
    pub power_on_field: Option<String>,
    pub capabilities: Option<Capabilities>,
    /// The topic of this device, in place of the bus's template.
    pub topic: Option<String>,
}

/// The DP that holds the power state of the device.
pub open spec fn power_field(config: TuyaDeviceConfig) -> Seq<char> {
    match config.power_on_field {
        Some(f) => f@,
        None => DEFAULT_POWER_ON_FIELD@,
    }
}

impl TuyaDeviceConfig {
    /// The DP that holds the power state of the device.
    pub fn power_dp(&self) -> (r: &str)
        ensures
            r@ == power_field(*self),
    {
        match &self.power_on_field {
            Some(f) => f.as_str(),
            None => DEFAULT_POWER_ON_FIELD,
        }
    }
}

} // verus!
