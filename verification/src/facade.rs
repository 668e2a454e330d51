//! The decision core of the public-facing dial object: the configuration it
//! holds on the caller's thread (subdivision count, connection flag) and the
//! control signals it issues to the polling engine. The channels, the
//! background thread and the callback dispatch around it are the host
//! application's.

use vstd::prelude::*;

use crate::events::ConnectionEvent;
use crate::events::ThreadSignals;
use crate::protocol;

verus! {

/// Largest subdivision count the device accepts: one haptic detent per tenth
/// of a degree.
pub const MAX_SUBDIVISIONS: u16 = 3600;

/// The configuration the dial facade holds: the requested subdivision count
/// and the connection state as last reported by the polling engine.
pub struct DialConfig {
    pub subdivisions: u16,
    pub is_connected: bool,
}

impl DialConfig {
    /// A fresh configuration: no subdivisions requested, no device connected.
    pub fn new() -> (c: DialConfig)
        ensures
            c.subdivisions == 0,
            !c.is_connected,
    {
        DialConfig { subdivisions: 0, is_connected: false }
    }

    /// Stores a requested subdivision count and returns the control signal
    /// that asks the polling engine to apply the matching haptic pattern. The
    /// engine remembers the request, so it takes effect on the next connect
    /// even when no device is open yet.
    pub fn set_subdivisions(&mut self, subdivisions: u16) -> (signal: ThreadSignals)
        requires
            subdivisions <= MAX_SUBDIVISIONS,
        ensures
            final(self).subdivisions == subdivisions,
            final(self).is_connected == old(self).is_connected,
            signal matches ThreadSignals::SendHaptics(h) && h@ == protocol::spec_haptic_pattern(
                subdivisions,
            ),
    {
        self.subdivisions = subdivisions;
        ThreadSignals::SendHaptics(protocol::haptic_pattern(subdivisions))
    }

    /// Records a connection event delivered by the polling engine, so the
    /// facade's connection flag tracks the session lifecycle.
    pub fn note_connection_event(&mut self, ev: ConnectionEvent) -> (r: bool)
        ensures
            final(self).subdivisions == old(self).subdivisions,
            final(self).is_connected == (ev is Connect),
            r == final(self).is_connected,
    {
        match ev {
            ConnectionEvent::Connect => {
                self.is_connected = true;
            },
            ConnectionEvent::Disconnect => {
                self.is_connected = false;
            },
        }
        self.is_connected
    }
}

/// Law: requesting a subdivision count and reading the generated haptic
/// pattern back round-trips; the count's low byte stands at offset 1 and its
/// high byte at offset 2, between the fixed marker bytes.
pub proof fn lemma_subdivisions_round_trip(subdivisions: u16)
    ensures
        protocol::spec_haptic_pattern(subdivisions).len() == 8,
        protocol::spec_haptic_pattern(subdivisions)[1] + 256 * protocol::spec_haptic_pattern(
            subdivisions,
        )[2] == subdivisions,
{
    assert(subdivisions & 0xff < 256) by (bit_vector);
    assert((subdivisions >> 8) & 0xff < 256) by (bit_vector);
    assert((subdivisions & 0xff) + 256 * ((subdivisions >> 8) & 0xff) == subdivisions)
        by (bit_vector);
}

} // verus!
