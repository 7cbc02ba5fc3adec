//! Govee lights control: the protocol, state and reconnect logic of a
//! local-network light controller, with their contracts.
//!
//! - [`models`]: colors, devices, device state and device commands.
//! - [`error`]: the error type shared by the clients, and its messages.
//! - [`text`]: decimal and hexadecimal text used by the wire format and messages.
//! - [`lan`]: the LAN (UDP) wire format and the validation done before a packet is sent.
//! - [`http`]: the cloud API's status checks, device filtering and state decoding.
//! - [`table`]: a map keyed by MAC address.
//! - [`worker`]: worker commands and events, the reconnect backoff and the offline table.
//! - [`flow`]: the worker's handling of a command as a state machine driven by call outcomes.
//! - [`app`]: the GUI state, how worker events update it, light groups and device names.
//! - [`config`]: persisted light groups.
//! - [`scenes`]: scene palettes and how a palette is spread over devices.
pub mod models;
pub mod text;
pub mod error;
pub mod lan;
pub mod table;
pub mod worker;
pub mod flow;
pub mod app;
pub mod http;
pub mod config;
pub mod scenes;
