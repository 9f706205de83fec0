//! Interaction core of a terminal console for networked smart outlets.
//!
//! The library holds the state machine of the console: the selection
//! cursors over the device list and a device's child-outlet list, the
//! focus state machine over the panels, the command dispatcher that
//! routes a key press, the toggle decision that picks a relay, and the
//! refresh scheduler that times the telemetry re-fetch. All network
//! and terminal work stays outside; the library speaks in plain values.

pub mod app;
pub mod cursor;
pub mod devices;
pub mod focus;
pub mod model;
pub mod scheduler;
