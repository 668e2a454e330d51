//! The raw-byte report protocol: a pure decoder that turns one HID report
//! into zero or more semantic dial events, and the 8-byte haptic feature
//! report that configures the device's subdivision feedback.

use vstd::prelude::*;

use crate::events::DialDirection;
use crate::events::DialEvent;

verus! {

/// First byte every accepted input report must carry.
pub const REPORT_ID_MARKER: u8 = 0x1;

/// A report is taken up for decoding only when it holds at least one byte and
/// that byte is the report-ID marker; anything else is discarded whole.
pub open spec fn report_accepted(report: Seq<u8>) -> bool {
    report.len() >= 1 && report[0] == REPORT_ID_MARKER
}

/// The button byte reads as pressed exactly on the two values the device uses
/// for a held button.
pub open spec fn button_pressed_byte(b: u8) -> bool {
    b == 0x01 || b == 0x03
}

/// The button state after decoding a report: the accepted report's button byte
/// when one is present, the previous state otherwise.
pub open spec fn next_button_state(report: Seq<u8>, previous: bool) -> bool {
    if report_accepted(report) && report.len() >= 2 {
        button_pressed_byte(report[1])
    } else {
        previous
    }
}

/// The signed velocity encoded by a magnitude byte: values up to 128 read as
/// themselves, values above as the byte minus 256.
pub open spec fn rotation_velocity(b: u8) -> int {
    if b > 128 {
        b - 256
    } else {
        b as int
    }
}

/// The rotation direction implied by a magnitude byte: clockwise for values up
/// to 128 inclusive, counterclockwise above.
pub open spec fn rotation_direction(b: u8) -> DialDirection {
    if b <= 128 {
        DialDirection::Clockwise
    } else {
        DialDirection::Counterclockwise
    }
}

/// The single rotation event a nonzero magnitude byte decodes to.
pub open spec fn rotation_event(b: u8) -> DialEvent {
    (DialEvent::Rotate { direction: rotation_direction(b), velocity: rotation_velocity(b) as i16 })
}

/// The button events a report decodes to: one edge-triggered event when the
/// report carries a button byte that differs from the previous state.
pub open spec fn button_events(report: Seq<u8>, previous: bool) -> Seq<DialEvent> {
    if report_accepted(report) && report.len() >= 2 && button_pressed_byte(report[1]) != previous {
        seq![DialEvent::Button { pressed: button_pressed_byte(report[1]) }]
    } else {
        Seq::empty()
    }
}

/// The rotation events a report decodes to: one event when the report reaches
/// the magnitude byte and that byte is nonzero.
pub open spec fn rotate_events(report: Seq<u8>) -> Seq<DialEvent> {
    if report_accepted(report) && report.len() > 2 && report[2] != 0 {
        seq![rotation_event(report[2])]
    } else {
        Seq::empty()
    }
}

/// Everything a report decodes to, button change first, rotation second.
pub open spec fn decoded_events(report: Seq<u8>, previous: bool) -> Seq<DialEvent> {
    button_events(report, previous) + rotate_events(report)
}

/// Decodes one raw report against the previously emitted button state,
/// returning the semantic events in emission order and the updated state.
pub fn decode(report: &[u8], previous_button_state: bool) -> (r: (Vec<DialEvent>, bool))
    ensures
        r.0@ == decoded_events(report@, previous_button_state),
        r.1 == next_button_state(report@, previous_button_state),
{
    let mut events: Vec<DialEvent> = Vec::new();
    let mut button_state = previous_button_state;
    if report.len() >= 1 && report[0] == REPORT_ID_MARKER {
        if report.len() >= 2 {
            let pressed = report[1] == 0x01 || report[1] == 0x03;
            if pressed != button_state {
                events.push(DialEvent::Button { pressed: pressed });
            }
            button_state = pressed;
        }
        if report.len() > 2 && report[2] != 0 {
            let b = report[2];
            let velocity: i16 = if b > 128 {
                b as i16 - 256
            } else {
                b as i16
            };
            let direction = if b <= 128 {
                DialDirection::Clockwise
            } else {
                DialDirection::Counterclockwise
            };
            events.push(DialEvent::Rotate { direction: direction, velocity: velocity });
        }
    }
    proof {
        assert(events@ =~= decoded_events(report@, previous_button_state));
    }
    (events, button_state)
}

/// The feature-report bytes that ask the device for `subdivisions` haptic
/// detents per revolution: a marker byte, the count in little-endian order,
/// and the interval marker.
pub open spec fn spec_haptic_pattern(subdivisions: u16) -> Seq<u8> {
    seq![
        1u8,
        (subdivisions & 0xff) as u8,
        ((subdivisions >> 8) & 0xff) as u8,
        0u8,
        3u8,
        0u8,
        0u8,
        0u8,
    ]
}

/// Builds the haptic feature report for a subdivision count.
pub fn haptic_pattern(subdivisions: u16) -> (pattern: [u8; 8])
    ensures
        pattern@ == spec_haptic_pattern(subdivisions),
{
    let pattern: [u8; 8] = [
        0x1,
        (subdivisions & 0xff) as u8,
        ((subdivisions >> 8) & 0xff) as u8,
        0x0,
        0x3,
        0x0,
        0x0,
        0x0,
    ];
    proof {
        assert(pattern@ =~= spec_haptic_pattern(subdivisions));
    }
    pattern
}

/// Law: a report shorter than one byte, or whose first byte is not the
/// report-ID marker, decodes to no events and leaves the button state as it
/// was.
pub proof fn lemma_rejected_report_is_inert(report: Seq<u8>, previous: bool)
    requires
        !report_accepted(report),
    ensures
        decoded_events(report, previous) =~= Seq::<DialEvent>::empty(),
        next_button_state(report, previous) == previous,
{
}

/// Law: when an accepted report carries a pressed button byte, the decoded
/// events hold exactly one `Button { pressed: true }` if the previous state
/// was released, and no button event at all if it was already pressed; either
/// way the updated state reads pressed.
pub proof fn lemma_button_press_is_edge_triggered(report: Seq<u8>, previous: bool)
    requires
        report_accepted(report),
        report.len() >= 2,
        button_pressed_byte(report[1]),
    ensures
        !previous ==> decoded_events(report, previous).filter(|e: DialEvent| e is Button)
            =~= seq![DialEvent::Button { pressed: true }],
        previous ==> decoded_events(report, previous).filter(|e: DialEvent| e is Button)
            =~= Seq::<DialEvent>::empty(),
        next_button_state(report, previous),
{
    reveal_with_fuel(Seq::filter, 4);
    assert(decoded_events(report, previous) =~= button_events(report, previous) + rotate_events(
        report,
    ));
}

/// Law: a zero magnitude byte yields no rotation event, whatever the other
/// bytes of the report hold.
pub proof fn lemma_zero_magnitude_yields_no_rotation(report: Seq<u8>, previous: bool)
    requires
        report.len() > 2,
        report[2] == 0,
    ensures
        rotate_events(report) =~= Seq::<DialEvent>::empty(),
        forall|i: int|
            0 <= i < decoded_events(report, previous).len() ==> !(decoded_events(report, previous)[i]
                is Rotate),
{
}

} // verus!
