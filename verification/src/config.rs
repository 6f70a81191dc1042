//! Device configuration options carried over the transport.

use vstd::prelude::*;

verus! {

/// Settings a host can push to the device.
#[derive(Clone, Copy, Debug, PartialEq, Eq, Structural)]
pub struct DeviceConfig {
    pub dark_mode: bool,
}

impl View for DeviceConfig {
    type V = DeviceConfig;

    open spec fn view(&self) -> DeviceConfig {
        *self
    }
}

impl DeviceConfig {
    pub fn new(dark_mode: bool) -> (r: DeviceConfig)
        ensures
            r == (DeviceConfig { dark_mode }),
    {
        DeviceConfig { dark_mode }
    }
}

} // verus!
