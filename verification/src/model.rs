//! The data the core reads of a device.
//!
//! A device on the wire is owned by the device registry outside this
//! library; the core works on a plain-value snapshot of what it reads:
//! an address, a sysinfo snapshot (alias, child count, child
//! descriptors) when one has been fetched, and the most recently
//! fetched telemetry records, one per relay.

use vstd::prelude::*;

verus! {

/// One independently switchable relay of a multi-relay device.
pub struct ChildOutlet {
    pub id: String,
    pub alias: String,
}

/// One live measurement for one relay: the current draw in milliamps.
#[derive(Clone, Copy, Debug, PartialEq, Eq, Structural)]
pub struct Telemetry {
    pub current_ma: u32,
}

/// A device's descriptive snapshot.
pub struct SysInfo {
    pub alias: String,
    pub child_num: usize,
    pub children: Vec<ChildOutlet>,
}

/// A controllable outlet as the core sees it.
pub struct Device {
    pub ip_addr: String,
    pub sysinfo: Option<SysInfo>,
    pub realtime: Vec<Telemetry>,
}

} // verus!
