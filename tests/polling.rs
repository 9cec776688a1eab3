use home_temperature_statusbar::poll::{Diagnostic, FetchEvent, PollState};
use home_temperature_statusbar::reading::{DeviceRecord, SensorReading};

fn sensor(id: &str, centidegrees: i32, humidity: u8) -> DeviceRecord {
    DeviceRecord::T310(SensorReading { device_id: id.to_string(), centidegrees, humidity })
}

fn two_sensors() -> Vec<DeviceRecord> {
    vec![sensor("A", 2000, 40), DeviceRecord::T315(SensorReading {
        device_id: "B".to_string(),
        centidegrees: 2500,
        humidity: 60,
    })]
}

#[test]
fn target_picks_second_sensor_end_to_end() {
    let state = PollState::new(120, Some("B".to_string()));
    let action = state.cycle(FetchEvent::Fetched(two_sensors()));
    let line = action.line.expect("a line");
    assert_eq!(line, "\u{f07d0} 25.0\u{f0504} 60\u{e373}");
    assert!(!line.contains("20.0"));
    assert!(matches!(action.diagnostic, Diagnostic::Quiet));
}

#[test]
fn no_target_two_sensors_end_to_end() {
    let state = PollState::new(120, None);
    let action = state.cycle(FetchEvent::Fetched(two_sensors()));
    let line = action.line.expect("a line");
    assert_eq!(line, "AMBIG_SENS");
    assert!(!line.contains("20.0") && !line.contains("25.0"));
    match action.diagnostic {
        Diagnostic::Ambiguous { known, requested } => {
            assert_eq!(known, 2);
            assert_eq!(requested, None);
        }
        _ => panic!("expected an ambiguity diagnostic"),
    }
}

#[test]
fn unknown_target_reports_known_count() {
    let state = PollState::new(60, Some("Z".to_string()));
    let action = state.cycle(FetchEvent::Fetched(two_sensors()));
    assert_eq!(action.line, Some("AMBIG_SENS".to_string()));
    match action.diagnostic {
        Diagnostic::Ambiguous { known, requested } => {
            assert_eq!(known, 2);
            assert_eq!(requested, Some("Z".to_string()));
        }
        _ => panic!("expected an ambiguity diagnostic"),
    }
}

#[test]
fn one_sensor_end_to_end() {
    let state = PollState::new(120, None);
    let action = state.cycle(FetchEvent::Fetched(vec![DeviceRecord::Other, sensor("A", 2145, 57)]));
    let line = action.line.expect("a line");
    assert!(line.contains("21.4"));
    assert!(line.contains("57"));
}

#[test]
fn failed_fetch_then_success_keeps_polling() {
    let state = PollState::new(30, None);
    let events = vec![FetchEvent::Failed, FetchEvent::Fetched(vec![sensor("A", 2145, 57)])];
    let mut errors = 0;
    let mut lines = Vec::new();
    for event in events {
        let action = state.cycle(event);
        assert_eq!(action.sleep_secs, 30);
        if matches!(action.diagnostic, Diagnostic::FetchFailed) {
            errors += 1;
        }
        if let Some(line) = action.line {
            lines.push(line);
        }
    }
    assert_eq!(errors, 1);
    assert_eq!(lines, vec!["\u{f07d0} 21.4\u{f0504} 57\u{e373}".to_string()]);
}

#[test]
fn no_sensor_cycle() {
    let state = PollState::new(120, None);
    let action = state.cycle(FetchEvent::Fetched(vec![DeviceRecord::Other]));
    assert_eq!(action.line, Some("NO_SENS".to_string()));
    assert!(matches!(action.diagnostic, Diagnostic::NoSensor));
}

#[test]
fn fetch_timeout_is_half_the_interval() {
    assert_eq!(PollState::new(120, None).fetch_timeout_secs(), 60);
    assert_eq!(PollState::new(3, None).fetch_timeout_secs(), 1);
    assert_eq!(PollState::new(1, None).fetch_timeout_secs(), 1);
    assert_eq!(PollState::new(0, None).fetch_timeout_secs(), 1);
}
