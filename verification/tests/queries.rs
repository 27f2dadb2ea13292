use daq_core::query::{delete_query, select_query};
use daq_core::sensor::SensorKind;
use daq_core::window::{is_decimal_text, Window};

#[test]
fn table_names_match_the_schema() {
    assert_eq!(SensorKind::ADC.table_name(), "adc_data");
    assert_eq!(SensorKind::GPS.table_name(), "gps_data");
    assert_eq!(SensorKind::MKR.table_name(), "mkr_data");
}

#[test]
fn scroll_area_ids_are_stable_and_distinct() {
    assert_eq!(SensorKind::ADC.scroll_area_id(), "adc_scroll_area");
    assert_eq!(SensorKind::GPS.scroll_area_id(), "gps_scroll_area");
    assert_eq!(SensorKind::MKR.scroll_area_id(), "mkr_scroll_area");
}

#[test]
fn titles_name_the_sensor() {
    assert_eq!(SensorKind::ADC.title(), "ADC Sensor Data");
    assert_eq!(SensorKind::GPS.title(), "GPS Sensor Data");
    assert_eq!(SensorKind::MKR.title(), "MIKROE Sensor Data");
}

#[test]
fn select_query_names_only_its_own_table() {
    let window = Window::parse("5").unwrap();
    assert_eq!(
        select_query(SensorKind::ADC, &window),
        "SELECT * FROM adc_data WHERE recording_time >= datetime('now', '-5 minutes')"
    );
    assert_eq!(
        select_query(SensorKind::GPS, &window),
        "SELECT * FROM gps_data WHERE recording_time >= datetime('now', '-5 minutes')"
    );
    assert_eq!(
        select_query(SensorKind::MKR, &window),
        "SELECT * FROM mkr_data WHERE recording_time >= datetime('now', '-5 minutes')"
    );
    let kinds = [SensorKind::ADC, SensorKind::GPS, SensorKind::MKR];
    for kind in kinds {
        let query = select_query(kind, &window);
        for other in kinds {
            assert_eq!(query.contains(other.table_name()), other == kind);
        }
    }
}

#[test]
fn select_query_carries_the_window_as_written() {
    let window = Window::parse("0.25").unwrap();
    assert_eq!(
        select_query(SensorKind::MKR, &window),
        "SELECT * FROM mkr_data WHERE recording_time >= datetime('now', '-0.25 minutes')"
    );
}

#[test]
fn delete_query_has_no_condition() {
    assert_eq!(delete_query(SensorKind::ADC), "DELETE FROM adc_data");
    assert_eq!(delete_query(SensorKind::GPS), "DELETE FROM gps_data");
    assert_eq!(delete_query(SensorKind::MKR), "DELETE FROM mkr_data");
}

#[test]
fn window_accepts_plain_decimals() {
    for text in ["0", "5", "120", "0.1", "12.50", "007"] {
        assert!(is_decimal_text(text), "{}", text);
        let window = Window::parse(text).unwrap();
        assert_eq!(window.as_str(), text);
    }
}

#[test]
fn window_rejects_everything_else() {
    for text in [
        "", "-1", "+1", ".5", "5.", "1.2.3", "1e3", "inf", "NaN", " 5", "5 ", "5'); DROP TABLE adc_data; --",
        "٥",
    ] {
        assert!(!is_decimal_text(text), "{}", text);
        assert_eq!(Window::parse(text), None);
    }
}

#[test]
fn first_window_is_five_minutes() {
    assert_eq!(Window::five_minutes().as_str(), "5");
    assert_eq!(Some(Window::five_minutes()), Window::parse("5"));
}
