use surface_dial_rs::events::ConnectionEvent;
use surface_dial_rs::events::ThreadSignals;
use surface_dial_rs::facade::DialConfig;

#[test]
fn fresh_config() {
    let config = DialConfig::new();
    assert_eq!(config.subdivisions, 0);
    assert!(!config.is_connected);
}

#[test]
fn subdivisions_round_trip_through_pattern() {
    let mut config = DialConfig::new();
    let signal = config.set_subdivisions(500);
    assert_eq!(config.subdivisions, 500);
    assert_eq!(signal, ThreadSignals::SendHaptics([1, 244, 1, 0, 3, 0, 0, 0]));
}

#[test]
fn connection_flag_tracks_events() {
    let mut config = DialConfig::new();
    assert!(config.note_connection_event(ConnectionEvent::Connect));
    assert!(config.is_connected);
    assert!(!config.note_connection_event(ConnectionEvent::Disconnect));
    assert!(!config.is_connected);
}
