//! The decision core of the background polling engine. The engine alternates
//! outside work (device enumeration, bounded-timeout reads, feature-report
//! writes, a backoff sleep) with decisions; the outside work is the host
//! application's, while every decision stands here as a verified step
//! function from state and event to next state and actions.

use vstd::prelude::*;

use crate::events::ConnectionEvent;
use crate::events::DialEvent;
use crate::events::ThreadSignals;
use crate::events::TopLevelEvent;
use crate::protocol;

verus! {

/// Vendor identifier of the target peripheral.
pub const DIAL_VENDOR_ID: u16 = 0x045e;

/// Product identifier of the target peripheral.
pub const DIAL_PRODUCT_ID: u16 = 0x091b;

/// Whether an enumerated device descriptor is the dial this driver targets.
pub fn device_matches(vendor_id: u16, product_id: u16) -> (r: bool)
    ensures
        r == (vendor_id == DIAL_VENDOR_ID && product_id == DIAL_PRODUCT_ID),
{
    vendor_id == DIAL_VENDOR_ID && product_id == DIAL_PRODUCT_ID
}

/// The state the polling engine carries from one loop iteration to the next:
/// whether it keeps running, whether a device is currently open, the last
/// emitted button state, and the last requested haptic pattern (so a freshly
/// opened device is configured with the latest request, never a stale
/// default).
pub struct EngineState {
    pub running: bool,
    pub connected: bool,
    pub button_state: bool,
    pub haptic_bytes: [u8; 8],
}

/// Whether a drained batch of control signals asks the engine to stop.
pub open spec fn batch_stops(signals: Seq<ThreadSignals>) -> bool {
    exists|i: int| 0 <= i < signals.len() && signals[i] is End
}

/// Whether the engine keeps running after draining a batch of control
/// signals: it must have been running and the batch must not hold a stop
/// request.
pub open spec fn engine_runs_after(running: bool, signals: Seq<ThreadSignals>) -> bool {
    running && !batch_stops(signals)
}

/// The haptic pattern the engine remembers after draining a batch: the
/// pattern of the batch's last haptics request, or the current one when the
/// batch holds none.
pub open spec fn batch_haptics(signals: Seq<ThreadSignals>, current: [u8; 8]) -> [u8; 8]
    decreases signals.len(),
{
    if signals.len() == 0 {
        current
    } else {
        match signals.last() {
            ThreadSignals::SendHaptics(h) => h,
            ThreadSignals::End => batch_haptics(signals.drop_last(), current),
        }
    }
}

/// The feature-report writes a batch asks for while a device is open: one per
/// haptics request, in order.
pub open spec fn batch_writes(signals: Seq<ThreadSignals>) -> Seq<[u8; 8]>
    decreases signals.len(),
{
    if signals.len() == 0 {
        Seq::empty()
    } else {
        batch_writes(signals.drop_last()) + (match signals.last() {
            ThreadSignals::SendHaptics(h) => seq![h],
            ThreadSignals::End => Seq::empty(),
        })
    }
}

impl EngineState {
    /// The engine's initial state: running, no device open, button released,
    /// and the all-zero-subdivision haptic pattern as the default to apply on
    /// the first connect.
    pub fn new() -> (s: EngineState)
        ensures
            s.running,
            !s.connected,
            !s.button_state,
            s.haptic_bytes@ == protocol::spec_haptic_pattern(0),
    {
        EngineState {
            running: true,
            connected: false,
            button_state: false,
            haptic_bytes: protocol::haptic_pattern(0),
        }
    }

    /// Applies one control signal: a stop request clears the running flag; a
    /// haptics request replaces the remembered pattern and, while a device is
    /// open, asks for one feature-report write of exactly that pattern.
    pub fn apply_signal(&mut self, signal: ThreadSignals) -> (write: Option<[u8; 8]>)
        ensures
            final(self).connected == old(self).connected,
            final(self).button_state == old(self).button_state,
            signal is End ==> {
                &&& !final(self).running
                &&& final(self).haptic_bytes == old(self).haptic_bytes
                &&& write is None
            },
            signal matches ThreadSignals::SendHaptics(h) ==> {
                &&& final(self).running == old(self).running
                &&& final(self).haptic_bytes == h
                &&& write == (if old(self).connected {
                    Some(h)
                } else {
                    None::<[u8; 8]>
                })
            },
    {
        match signal {
            ThreadSignals::End => {
                self.running = false;
                None
            },
            ThreadSignals::SendHaptics(h) => {
                self.haptic_bytes = h;
                if self.connected {
                    Some(h)
                } else {
                    None
                }
            },
        }
    }

    /// Drains one batch of pending control signals, as the engine does at the
    /// top of every loop iteration: a stop request anywhere in the batch stops
    /// the engine, the last haptics request wins, and while a device is open
    /// each haptics request costs one feature-report write, in order.
    pub fn drain_signals(&mut self, signals: &Vec<ThreadSignals>) -> (writes: Vec<[u8; 8]>)
        ensures
            final(self).connected == old(self).connected,
            final(self).button_state == old(self).button_state,
            final(self).running == engine_runs_after(old(self).running, signals@),
            final(self).haptic_bytes == batch_haptics(signals@, old(self).haptic_bytes),
            old(self).connected ==> writes@ == batch_writes(signals@),
            !old(self).connected ==> writes@.len() == 0,
    {
        let mut writes: Vec<[u8; 8]> = Vec::new();
        let mut i: usize = 0;
        while i < signals.len()
            invariant
                0 <= i <= signals@.len(),
                self.connected == old(self).connected,
                self.button_state == old(self).button_state,
                self.running == engine_runs_after(old(self).running, signals@.take(i as int)),
                self.haptic_bytes == batch_haptics(
                    signals@.take(i as int),
                    old(self).haptic_bytes,
                ),
                old(self).connected ==> writes@ == batch_writes(signals@.take(i as int)),
                !old(self).connected ==> writes@.len() == 0,
            decreases signals@.len() - i,
        {
            let ghost prefix = signals@.take(i as int);
            let signal = signals[i];
            let write = self.apply_signal(signal);
            if let Some(w) = write {
                writes.push(w);
            }
            i = i + 1;
            proof {
                let stepped = signals@.take(i as int);
                assert(stepped.drop_last() =~= prefix);
                assert(stepped.last() == signal);
                if old(self).connected {
                    assert(writes@ =~= batch_writes(stepped));
                }
            }
        }
        proof {
            assert(signals@.take(signals@.len() as int) =~= signals@);
        }
        writes
    }

    /// Records a successful device open: the engine is connected, and the
    /// remembered haptic pattern is to be written to the fresh device along
    /// with one `Connect` event outward.
    pub fn on_open_success(&mut self) -> (r: ([u8; 8], TopLevelEvent))
        ensures
            final(self).running == old(self).running,
            final(self).connected,
            final(self).button_state == old(self).button_state,
            final(self).haptic_bytes == old(self).haptic_bytes,
            r.0 == old(self).haptic_bytes,
            r.1 == TopLevelEvent::ConnectionEvent(ConnectionEvent::Connect),
    {
        self.connected = true;
        (self.haptic_bytes, TopLevelEvent::ConnectionEvent(ConnectionEvent::Connect))
    }

    /// Records an open attempt that found the device but failed to open it:
    /// the state is unchanged and one `Disconnect` event goes outward. A mere
    /// absence of the device produces no event at all.
    pub fn on_open_failure(&mut self) -> (ev: TopLevelEvent)
        ensures
            *final(self) == *old(self),
            ev == TopLevelEvent::ConnectionEvent(ConnectionEvent::Disconnect),
    {
        TopLevelEvent::ConnectionEvent(ConnectionEvent::Disconnect)
    }

    /// Records a failed read (or a failed write) on the open device: the
    /// handle is to be dropped, the engine is disconnected, and one
    /// `Disconnect` event goes outward.
    pub fn on_read_error(&mut self) -> (ev: TopLevelEvent)
        ensures
            final(self).running == old(self).running,
            !final(self).connected,
            final(self).button_state == old(self).button_state,
            final(self).haptic_bytes == old(self).haptic_bytes,
            ev == TopLevelEvent::ConnectionEvent(ConnectionEvent::Disconnect),
    {
        self.connected = false;
        TopLevelEvent::ConnectionEvent(ConnectionEvent::Disconnect)
    }

    /// Decodes one report read from the open device against the engine's
    /// button state and wraps the decoded events for the outward channel,
    /// preserving their order.
    pub fn on_report(&mut self, report: &[u8]) -> (events: Vec<TopLevelEvent>)
        ensures
            final(self).running == old(self).running,
            final(self).connected == old(self).connected,
            final(self).haptic_bytes == old(self).haptic_bytes,
            final(self).button_state == protocol::next_button_state(
                report@,
                old(self).button_state,
            ),
            events@ == protocol::decoded_events(report@, old(self).button_state).map_values(
                |e: DialEvent| TopLevelEvent::DialEvent(e),
            ),
    {
        let (decoded, next_state) = protocol::decode(report, self.button_state);
        self.button_state = next_state;
        let ghost dial_events = protocol::decoded_events(report@, old(self).button_state);
        let mut events: Vec<TopLevelEvent> = Vec::new();
        let mut i: usize = 0;
        while i < decoded.len()
            invariant
                0 <= i <= decoded@.len(),
                decoded@ == dial_events,
                events@ =~= dial_events.take(i as int).map_values(
                    |e: DialEvent| TopLevelEvent::DialEvent(e),
                ),
            decreases decoded@.len() - i,
        {
            events.push(TopLevelEvent::DialEvent(decoded[i]));
            proof {
                assert(dial_events.take((i + 1) as int).drop_last() =~= dial_events.take(i as int));
                assert(events@ =~= dial_events.take((i + 1) as int).map_values(
                    |e: DialEvent| TopLevelEvent::DialEvent(e),
                ));
            }
            i = i + 1;
        }
        proof {
            assert(dial_events.take(dial_events.len() as int) =~= dial_events);
        }
        events
    }
}

/// Law: a stop request anywhere in a drained batch leaves the engine stopped,
/// whatever its prior state and whatever else the batch holds.
pub proof fn lemma_terminate_is_honored(running: bool, signals: Seq<ThreadSignals>, i: int)
    requires
        0 <= i < signals.len(),
        signals[i] is End,
    ensures
        !engine_runs_after(running, signals),
{
}

/// Law: the last haptics request of a drained batch wins; whatever pattern
/// the engine remembered before, it remembers that request's pattern after.
pub proof fn lemma_last_pattern_wins(
    signals: Seq<ThreadSignals>,
    pattern: [u8; 8],
    current: [u8; 8],
)
    ensures
        batch_haptics(signals.push(ThreadSignals::SendHaptics(pattern)), current) == pattern,
{
    assert(signals.push(ThreadSignals::SendHaptics(pattern)).last() == ThreadSignals::SendHaptics(
        pattern,
    ));
}

} // verus!
