use rpi_temp_monitor::datapoint::{reading_datapoints, Datapoint, Reading};
use rpi_temp_monitor::reader::{PollFailure, ReaderAction, SensorReader, MIN_POLL_SPACING_MS};
use rpi_temp_monitor::sensor::Sensor;

fn reading() -> Reading {
    Reading { temperature_tenths: 215, humidity_tenths: 473 }
}

#[test]
fn datapoint_name_joins_sensor_and_label() {
    let sensor = Sensor::new("attic".to_string(), 4);
    let d = Datapoint::new(-35, "temperature", &sensor, 1_700_000_000, 900);
    assert_eq!(d.name, "attic.temperature");
    assert_eq!(d.interval, 900);
    assert_eq!(d.value_tenths, -35);
    assert_eq!(d.time, 1_700_000_000);
}

#[test]
fn reading_gives_temperature_then_humidity() {
    let sensor = Sensor::new("cellar".to_string(), 17);
    let points = reading_datapoints(&reading(), &sensor, 1234, 60);
    assert_eq!(points.len(), 2);
    assert_eq!(points[0].name, "cellar.temperature");
    assert_eq!(points[0].value_tenths, 215);
    assert_eq!(points[1].name, "cellar.humidity");
    assert_eq!(points[1].value_tenths, 473);
    for p in &points {
        assert_eq!(p.interval, 60);
        assert_eq!(p.time, 1234);
    }
}

#[test]
fn largest_timestamp_is_kept() {
    let sensor = Sensor::new("s".to_string(), 1);
    let d = Datapoint::new(0, "humidity", &sensor, i64::MAX as u64, 1);
    assert_eq!(d.time, i64::MAX);
}

#[test]
fn first_poll_is_immediate() {
    let reader = SensorReader::new(Sensor::new("a".to_string(), 4), 900, None);
    assert_eq!(reader.start(), ReaderAction::Poll { delay_ms: 0 });
}

#[test]
fn success_on_first_poll_emits_two_points() {
    let mut reader = SensorReader::new(Sensor::new("a".to_string(), 4), 900, None);
    match reader.on_poll(Ok(reading()), 99) {
        ReaderAction::Emit(points) => {
            assert_eq!(points.len(), 2);
            assert_eq!(points[0].name, "a.temperature");
            assert_eq!(points[1].name, "a.humidity");
            assert_eq!(points[0].time, 99);
            assert_eq!(points[1].interval, 900);
        }
        other => panic!("unexpected action {:?}", other),
    }
    assert_eq!(reader.attempts, 1);
}

#[test]
fn fails_three_times_then_succeeds() {
    let mut reader = SensorReader::new(Sensor::new("porch".to_string(), 27), 300, None);
    assert_eq!(reader.start(), ReaderAction::Poll { delay_ms: 0 });
    let failures = vec![
        PollFailure::Checksum,
        PollFailure::Timeout,
        PollFailure::Gpio("pin busy".to_string()),
    ];
    let mut polls: u64 = 1;
    for f in failures {
        let action = reader.on_poll(Err(f), 10);
        assert_eq!(action, ReaderAction::Poll { delay_ms: MIN_POLL_SPACING_MS });
        polls += 1;
    }
    let action = reader.on_poll(Ok(reading()), 20);
    let expected = reading_datapoints(&reading(), &Sensor::new("porch".to_string(), 27), 20, 300);
    assert_eq!(action, ReaderAction::Emit(expected));
    assert_eq!(polls, 4);
    assert_eq!(reader.attempts, 4);
    assert!(MIN_POLL_SPACING_MS >= 2100);
}

#[test]
fn bounded_reader_gives_up() {
    let mut reader = SensorReader::new(Sensor::new("a".to_string(), 4), 900, Some(2));
    assert_eq!(reader.on_poll(Err(PollFailure::Timeout), 1), ReaderAction::Poll { delay_ms: 2100 });
    assert_eq!(reader.on_poll(Err(PollFailure::Timeout), 2), ReaderAction::GiveUp);
}

#[test]
fn bounded_reader_still_emits_on_last_allowed_poll() {
    let mut reader = SensorReader::new(Sensor::new("a".to_string(), 4), 900, Some(1));
    assert!(matches!(reader.on_poll(Ok(reading()), 1), ReaderAction::Emit(_)));
}

#[test]
fn zero_budget_never_polls() {
    let reader = SensorReader::new(Sensor::new("a".to_string(), 4), 900, Some(0));
    assert_eq!(reader.start(), ReaderAction::GiveUp);
}

#[test]
fn failure_messages() {
    assert_eq!(PollFailure::Checksum.message(), "Checksum value of the reading is incorrect!");
    assert_eq!(PollFailure::Timeout.message(), "Timeout reading the sensor value");
    assert_eq!(
        PollFailure::Gpio("no access".to_string()).message(),
        "Problem reading GPIO value: no access"
    );
}

#[test]
fn sensor_duplicate_is_equal() {
    let s = Sensor::new("x".to_string(), 9);
    assert_eq!(s.duplicate(), s);
}
