//! Transport core for a host application talking to a small e-paper widget
//! device over two interchangeable links: a length-prefixed TCP stream and a
//! fixed-frame Bluetooth LE characteristic pair.
//!
//! The crate holds the verified heart of that system: the wire codec for both
//! links, the packet model, the request/response correlation machinery, the
//! endpoint state machines for each side, and the device's widget-refresh
//! scheduler. Link I/O itself (sockets, GATT) lives outside, in thin drivers
//! that feed bytes in and carry bytes out.

use vstd::prelude::*;

pub mod ble_device;
pub mod ble_host;
pub mod ble_types;
pub mod bytes;
pub mod clock;
pub mod codec;
pub mod config;
pub mod correlate;
pub mod errors;
pub mod handler;
pub mod ids;
pub mod inflight;
pub mod layout;
pub mod state;
pub mod stream;
pub mod tcp_device;
pub mod tcp_host;
pub mod websocket;
pub mod widgets;
pub mod wire;

verus! {

/// Which kind of device the host application is talking to: real
/// hardware over BLE, or the desktop simulator over the stream link.
#[derive(Clone, Copy, Debug, PartialEq, Eq, Structural)]
pub enum DeviceMode {
    RealDevice,
    Simulator,
}

/// Size in bytes of one BLE characteristic frame; every BLE packet is
/// carried in exactly one such frame.
pub const BLE_CHAR_SIZE: usize = 128;

/// Largest stream-frame payload a reader accepts; longer frames are skipped.
pub const MAX_STREAM_FRAME: usize = 2048;

/// Number of fixed response slots on the embedded BLE endpoint.
pub const MAX_INFLIGHT: usize = 4;

/// Upper bound on concurrently live widget-refresh tasks on the device.
pub const MAX_REFRESH_TASKS: usize = 10;

/// Seconds an initiator waits for a response before reporting a timeout.
pub const REQUEST_TIMEOUT_SECS: u64 = 5;

/// Extra wire-grace seconds granted on the embedded BLE side.
pub const BLE_TIMEOUT_GRACE_SECS: u64 = 2;

} // verus!
