//! A bridge between an MQTT bus and Tuya smart lamps: the conversion of lamp
//! state to device data points and back, the per-device event timeline, the
//! command throttle, and the decisions of the session and reconnect loops.
pub mod text;
pub mod dps;
pub mod mqtt;
pub mod config;
pub mod codec;
pub mod clock;
pub mod timeline;
pub mod device;
pub mod session;
pub mod bus;
