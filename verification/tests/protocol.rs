use surface_dial_rs::events::DialDirection;
use surface_dial_rs::events::DialEvent;
use surface_dial_rs::protocol::decode;
use surface_dial_rs::protocol::haptic_pattern;

#[test]
fn it_works() {
    let result = 2 + 2;
    assert_eq!(result, 4);
}

#[test]
fn decode_discards_empty_report() {
    let (events, state) = decode(&[], true);
    assert!(events.is_empty());
    assert_eq!(state, true);
    let (events, state) = decode(&[], false);
    assert!(events.is_empty());
    assert_eq!(state, false);
}

#[test]
fn decode_discards_wrong_marker() {
    let (events, state) = decode(&[0x2, 0x1, 64], false);
    assert!(events.is_empty());
    assert_eq!(state, false);
    let (events, state) = decode(&[0x0, 0x1, 64], true);
    assert!(events.is_empty());
    assert_eq!(state, true);
}

#[test]
fn decode_short_report_keeps_state() {
    let (events, state) = decode(&[0x1], true);
    assert!(events.is_empty());
    assert_eq!(state, true);
}

#[test]
fn decode_button_press_is_edge_triggered() {
    for button_byte in [0x01u8, 0x03u8] {
        let (events, state) = decode(&[0x1, button_byte, 0], false);
        assert_eq!(events, vec![DialEvent::Button { pressed: true }]);
        assert_eq!(state, true);

        let (events, state) = decode(&[0x1, button_byte, 0], true);
        assert!(events.is_empty());
        assert_eq!(state, true);
    }
}

#[test]
fn decode_button_release() {
    let (events, state) = decode(&[0x1, 0x0, 0], true);
    assert_eq!(events, vec![DialEvent::Button { pressed: false }]);
    assert_eq!(state, false);
}

#[test]
fn decode_zero_magnitude_yields_no_rotation() {
    let (events, _) = decode(&[0x1, 0x0, 0], false);
    assert!(events.is_empty());
    let (events, _) = decode(&[0x1, 0x1, 0, 0xff, 0xff], false);
    assert_eq!(events, vec![DialEvent::Button { pressed: true }]);
}

#[test]
fn decode_clockwise_rotation() {
    let (events, state) = decode(&[0x1, 0x0, 64], false);
    assert_eq!(
        events,
        vec![DialEvent::Rotate { direction: DialDirection::Clockwise, velocity: 64 }]
    );
    assert_eq!(state, false);
}

#[test]
fn decode_counterclockwise_rotation() {
    let (events, _) = decode(&[0x1, 0x0, 192], false);
    assert_eq!(
        events,
        vec![DialEvent::Rotate { direction: DialDirection::Counterclockwise, velocity: -64 }]
    );
}

#[test]
fn decode_rotation_boundaries() {
    let (events, _) = decode(&[0x1, 0x0, 128], false);
    assert_eq!(
        events,
        vec![DialEvent::Rotate { direction: DialDirection::Clockwise, velocity: 128 }]
    );
    let (events, _) = decode(&[0x1, 0x0, 129], false);
    assert_eq!(
        events,
        vec![DialEvent::Rotate { direction: DialDirection::Counterclockwise, velocity: -127 }]
    );
    let (events, _) = decode(&[0x1, 0x0, 1], false);
    assert_eq!(
        events,
        vec![DialEvent::Rotate { direction: DialDirection::Clockwise, velocity: 1 }]
    );
    let (events, _) = decode(&[0x1, 0x0, 255], false);
    assert_eq!(
        events,
        vec![DialEvent::Rotate { direction: DialDirection::Counterclockwise, velocity: -1 }]
    );
}

#[test]
fn decode_button_and_rotation_in_order() {
    let (events, state) = decode(&[0x1, 0x1, 64], false);
    assert_eq!(
        events,
        vec![
            DialEvent::Button { pressed: true },
            DialEvent::Rotate { direction: DialDirection::Clockwise, velocity: 64 },
        ]
    );
    assert_eq!(state, true);
}

#[test]
fn haptic_pattern_for_500_subdivisions() {
    assert_eq!(haptic_pattern(500), [1, 244, 1, 0, 3, 0, 0, 0]);
}

#[test]
fn haptic_pattern_edges() {
    assert_eq!(haptic_pattern(0), [1, 0, 0, 0, 3, 0, 0, 0]);
    assert_eq!(haptic_pattern(3600), [1, 16, 14, 0, 3, 0, 0, 0]);
}
