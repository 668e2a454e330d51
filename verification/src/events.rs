//! The semantic event types carried between the background polling engine and
//! the application: rotation and button events decoded from raw reports,
//! connection lifecycle events, and the control signals sent the other way.

use vstd::prelude::*;

verus! {

/// Direction of a dial rotation, derived from the sign of the raw velocity
/// byte of a report.
#[derive(Debug, Clone, Copy, PartialEq, Eq)]
pub enum DialDirection {
    Clockwise,
    Counterclockwise,
}

/// One semantic input event decoded from a report: a rotation with a signed
/// velocity, or an edge-triggered button change.
#[derive(Debug, Clone, Copy, PartialEq, Eq)]
pub enum DialEvent {
    Rotate { direction: DialDirection, velocity: i16 },
    Button { pressed: bool },
}

/// A transition of the device session's lifecycle.
#[derive(Debug, Clone, Copy, PartialEq, Eq)]
pub enum ConnectionEvent {
    Connect,
    Disconnect,
}

/// The sole payload type flowing outward from the polling engine to the
/// application, preserving emission order.
#[derive(Debug, Clone, Copy, PartialEq, Eq)]
pub enum TopLevelEvent {
    DialEvent(DialEvent),
    ConnectionEvent(ConnectionEvent),
}

/// The sole payload type flowing inward from the application to the polling
/// engine: a haptic pattern to apply, or the request to stop.
#[derive(Debug, Clone, Copy, PartialEq, Eq)]
pub enum ThreadSignals {
    SendHaptics([u8; 8]),
    End,
}

} // verus!
