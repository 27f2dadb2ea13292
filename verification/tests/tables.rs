use daq_core::reading::{Measurement, SensorReading};
use daq_core::table::{decimal_text, reading_line, table_line};

#[test]
fn table_line_lists_the_four_parts() {
    assert_eq!(
        table_line("2024-01-01 00:00:00", "1", "5", "0.5"),
        "Recording Time: 2024-01-01 00:00:00, ID: 1, Data_1: 5, Data_2: 0.5"
    );
}

#[test]
fn reading_line_shows_the_recording_time_as_stored() {
    let reading = SensorReading {
        timestamp: 1_704_067_200,
        id: 12,
        primary_value: Measurement::Real(5.0f64.to_bits()),
        secondary_value: Measurement::zero(),
    };
    assert_eq!(
        reading_line(&reading, "5", "0"),
        Some("Recording Time: 2024-01-01 00:00:00, ID: 12, Data_1: 5, Data_2: 0".to_string())
    );
}

#[test]
fn reading_line_shows_times_before_the_epoch() {
    let reading = SensorReading {
        timestamp: -1,
        id: -40,
        primary_value: Measurement::Integer(2),
        secondary_value: Measurement::Integer(3),
    };
    assert_eq!(
        reading_line(&reading, "2", "3"),
        Some("Recording Time: 1969-12-31 23:59:59, ID: -40, Data_1: 2, Data_2: 3".to_string())
    );
}

#[test]
fn reading_line_is_absent_beyond_the_calendar() {
    let reading = SensorReading {
        timestamp: 9_999_999_999_999,
        id: 1,
        primary_value: Measurement::Integer(2),
        secondary_value: Measurement::Integer(3),
    };
    assert_eq!(reading_line(&reading, "2", "3"), None);
}

#[test]
fn decimal_text_writes_whole_numbers() {
    assert_eq!(decimal_text(0), "0");
    assert_eq!(decimal_text(7), "7");
    assert_eq!(decimal_text(10), "10");
    assert_eq!(decimal_text(1_704_067_200), "1704067200");
    assert_eq!(decimal_text(-1), "-1");
    assert_eq!(decimal_text(-905), "-905");
    assert_eq!(decimal_text(i64::MAX), "9223372036854775807");
    assert_eq!(decimal_text(i64::MIN), "-9223372036854775808");
}

#[test]
fn decimal_text_agrees_with_the_standard_writer() {
    let mut value: i64 = 1;
    for step in 0..62 {
        assert_eq!(decimal_text(value), value.to_string());
        assert_eq!(decimal_text(-value), (-value).to_string());
        assert_eq!(decimal_text(value - 1), (value - 1).to_string());
        value = value * 2 + (step % 2);
    }
}
