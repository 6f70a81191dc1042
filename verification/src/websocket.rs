//! A sketched websocket transport.
//!
//! A third link was once planned beside the stream and BLE links; only
//! its type-state skeleton took shape. The constructors stand so the
//! shape of the interface is pinned down; no websocket driver exists yet.

use vstd::prelude::*;

verus! {

/// Marker: the host role.
pub struct Host;

/// Marker: the device role.
pub struct Device;

/// A websocket-backed endpoint in one of the two roles.
pub struct WebsocketTransport<Kind> {
    kind: core::marker::PhantomData<Kind>,
}

impl WebsocketTransport<Host> {
    /// The host end of a websocket link.
    pub fn new_host() -> Self {
        Self { kind: core::marker::PhantomData }
    }
}

impl WebsocketTransport<Device> {
    /// The device end of a websocket link.
    pub fn new_device() -> Self {
        Self { kind: core::marker::PhantomData }
    }
}

/// Exercise both constructors.
pub fn lol() {
    let _host_transport = WebsocketTransport::<Host>::new_host();
    let _device_transport = WebsocketTransport::<Device>::new_device();
}

} // verus!
