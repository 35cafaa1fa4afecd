//! The lamp state as the bus carries it, and the levels in which fractions
//! between zero and one are held.
use crate::dps::{DpEntries, DpMap};
use vstd::prelude::*;

verus! {

/// The lowest colour temperature that the lamps are taken to support, in kelvin.
pub const MIN_SUPPORTED_CT: u16 = 2700;

/// The highest colour temperature that the lamps are taken to support, in kelvin.
pub const MAX_SUPPORTED_CT: u16 = 6500;

/// The level that stands for one: a brightness, saturation or brightness cap
/// `x` in `[0, 1]` is held as the integer `x * LEVEL_ONE`. The value is the
/// least common multiple of the device's 990 brightness steps and its 1000
/// saturation steps, so that every value a device reports is an exact level.
pub const LEVEL_ONE: u32 = 99_000;

/// What a lamp can show.
#[derive(Clone, Debug, PartialEq)]
pub struct Capabilities {
    /// Hue (0 - 360) and saturation (0.0 - 1.0).
    pub hs: bool,
    /// Colour temperature range in kelvin.
    pub ct: Option<std::ops::Range<u16>>,
}

/// The capabilities assumed of a lamp whose configuration names none.
pub open spec fn default_capabilities() -> Capabilities {
    Capabilities {
        hs: true,
        ct: Some(std::ops::Range { start: MIN_SUPPORTED_CT, end: MAX_SUPPORTED_CT }),
    }
}

impl Default for Capabilities {
    fn default() -> (r: Self)
        ensures
            r == default_capabilities(),
    {
        Capabilities {
            hs: true,
            ct: Some(std::ops::Range { start: MIN_SUPPORTED_CT, end: MAX_SUPPORTED_CT }),
        }
    }
}

impl Capabilities {
    /// A copy of these capabilities.
    pub fn copied(&self) -> (r: Capabilities)
        ensures
            r == *self,
    {
        Capabilities {
            hs: self.hs,
            ct: match &self.ct {
                Some(range) => Some(std::ops::Range { start: range.start, end: range.end }),
                None => None,
            },
        }
    }
}

/// A chromatic colour: hue in degrees and saturation as a level.
#[derive(Clone, Copy, Debug, PartialEq, Eq, Structural)]
pub struct Hs {
    pub h: u16,
    /// Saturation, in units of `1 / LEVEL_ONE`.
    pub s: u32,
}

/// A white of the given colour temperature in kelvin.
#[derive(Clone, Copy, Debug, Default, PartialEq, Eq, Structural)]
pub struct Ct {
    pub ct: u16,
}

/// The colour of a lamp: chromatic or white, never both.
#[derive(Clone, Copy, Debug, PartialEq, Eq, Structural)]
pub enum DeviceColor {
    Hs(Hs),
    Ct(Ct),
}

/// The lamp state that the bus carries. Every field but `id` may be absent:
/// on a command it means "unchanged", on a report "unknown".
#[derive(Clone, Debug, PartialEq)]
pub struct MqttDevice {
    pub id: String,
    pub name: Option<String>,
    pub power: Option<bool>,
    /// Brightness, in units of `1 / LEVEL_ONE`.
    pub brightness: Option<u32>,
    pub color: Option<DeviceColor>,
    pub transition_ms: Option<u32>,
    pub sensor_value: Option<String>,
    pub capabilities: Option<Capabilities>,
    /// The DP map that a report was read from.
    pub raw: Option<DpMap>,
}

/// The mathematical value of an [`MqttDevice`].
pub struct LampState {
    pub id: Seq<char>,
    pub name: Option<Seq<char>>,
    pub power: Option<bool>,
    pub brightness: Option<u32>,
    pub color: Option<DeviceColor>,
    pub transition_ms: Option<u32>,
    pub sensor_value: Option<Seq<char>>,
    pub capabilities: Option<Capabilities>,
    pub raw: Option<DpEntries>,
}

/// The text of an optional string.
pub open spec fn opt_text(s: Option<String>) -> Option<Seq<char>> {
    match s {
        Some(s) => Some(s@),
        None => None,
    }
}

impl View for MqttDevice {
    type V = LampState;

    open spec fn view(&self) -> LampState {
        LampState {
            id: self.id@,
            name: opt_text(self.name),
            power: self.power,
            brightness: self.brightness,
            color: self.color,
            transition_ms: self.transition_ms,
            sensor_value: opt_text(self.sensor_value),
            capabilities: self.capabilities,
            raw: match self.raw {
                Some(m) => Some(m@),
                None => None,
            },
        }
    }
}

} // verus!
