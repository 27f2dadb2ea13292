use daq_core::clock::{seconds_since, Instant};
use daq_core::error::DataError;
use daq_core::plot::{plot_outcome, project, project_all, Coord, PlotMode, PlotPoint};
use daq_core::reading::{Measurement, SensorReading, MAX_TIMESTAMP, MIN_TIMESTAMP};

fn number(coord: Coord) -> f64 {
    match coord {
        Coord::Seconds(s) => s as f64,
        Coord::Value(Measurement::Integer(i)) => i as f64,
        Coord::Value(Measurement::Real(bits)) => f64::from_bits(bits),
    }
}

fn seconds(text: &str) -> i64 {
    chrono::NaiveDateTime::parse_from_str(text, "%Y-%m-%dT%H:%M:%S").unwrap().and_utc().timestamp()
}

fn reading(timestamp: i64, primary: f64, secondary: f64) -> SensorReading {
    SensorReading {
        timestamp,
        id: 1,
        primary_value: Measurement::Real(primary.to_bits()),
        secondary_value: Measurement::Real(secondary.to_bits()),
    }
}

#[test]
fn mode_0_plots_primary_against_seconds_ago() {
    let now = Instant::new(seconds("2024-01-01T00:00:10"), 0).unwrap();
    let r = reading(seconds("2024-01-01T00:00:00"), 5.0, 0.0);
    let point = project(PlotMode::from_index(0).unwrap(), now, &r);
    assert_eq!((number(point.x), number(point.y)), (-10.0, 5.0));
    assert_eq!(point.x, Coord::Seconds(-10));
}

#[test]
fn mode_1_plots_secondary_against_seconds_ago() {
    let now = Instant::new(seconds("2024-01-01T00:00:10"), 0).unwrap();
    let r = reading(seconds("2024-01-01T00:00:00"), 5.0, 8.5);
    let point = project(PlotMode::from_index(1).unwrap(), now, &r);
    assert_eq!((number(point.x), number(point.y)), (-10.0, 8.5));
}

#[test]
fn modes_2_and_3_swap_the_axes() {
    let now = Instant::new(1_704_067_210, 0).unwrap();
    let r = reading(1_704_067_200, 3.0, 7.0);
    let two = project(PlotMode::from_index(2).unwrap(), now, &r);
    let three = project(PlotMode::from_index(3).unwrap(), now, &r);
    assert_eq!((number(two.x), number(two.y)), (7.0, 3.0));
    assert_eq!((number(three.x), number(three.y)), (3.0, 7.0));
    assert_eq!(two.x, three.y);
    assert_eq!(two.y, three.x);
}

#[test]
fn a_reading_of_this_second_lies_at_zero() {
    let now = Instant::new(1_704_067_200, 999_999_999).unwrap();
    let point = project(PlotMode::PrimaryOverTime, now, &reading(1_704_067_200, 1.0, 2.0));
    assert_eq!(point.x, Coord::Seconds(0));
}

#[test]
fn elapsed_seconds_round_toward_zero() {
    let now = Instant::new(100, 500_000_000).unwrap();
    assert_eq!(seconds_since(now, 90), 10);
    assert_eq!(seconds_since(now, 100), 0);
    assert_eq!(seconds_since(now, 101), 0);
    assert_eq!(seconds_since(now, 110), -9);
    let on_the_second = Instant::new(100, 0).unwrap();
    assert_eq!(seconds_since(on_the_second, 110), -10);
    assert_eq!(seconds_since(on_the_second, 101), -1);
}

#[test]
fn elapsed_seconds_agree_with_the_calendar() {
    let now = chrono::DateTime::from_timestamp(100, 500_000_000).unwrap().naive_utc();
    for then in [90i64, 100, 101, 110, -5] {
        let recorded = chrono::DateTime::from_timestamp(then, 0).unwrap().naive_utc();
        let expected = now.signed_duration_since(recorded).num_seconds();
        assert_eq!(seconds_since(Instant::new(100, 500_000_000).unwrap(), then), expected);
    }
}

#[test]
fn the_time_axis_holds_the_whole_range() {
    let latest = Instant::new(MAX_TIMESTAMP, 0).unwrap();
    let earliest = Instant::new(MIN_TIMESTAMP, 1).unwrap();
    assert_eq!(
        project(PlotMode::PrimaryOverTime, latest, &reading(MIN_TIMESTAMP, 0.0, 0.0)).x,
        Coord::Seconds(-20_000_000_000_000)
    );
    assert_eq!(
        project(PlotMode::PrimaryOverTime, earliest, &reading(MAX_TIMESTAMP, 0.0, 0.0)).x,
        Coord::Seconds(19_999_999_999_999)
    );
}

#[test]
fn instants_outside_the_range_do_not_exist() {
    assert_eq!(Instant::new(MAX_TIMESTAMP + 1, 0), None);
    assert_eq!(Instant::new(MIN_TIMESTAMP - 1, 0), None);
    assert_eq!(Instant::new(0, 5), Some(Instant { secs: 0, nanos: 5 }));
}

#[test]
fn mode_numbers_0_to_3_name_the_four_modes() {
    assert_eq!(PlotMode::from_index(0), Ok(PlotMode::PrimaryOverTime));
    assert_eq!(PlotMode::from_index(1), Ok(PlotMode::SecondaryOverTime));
    assert_eq!(PlotMode::from_index(2), Ok(PlotMode::PrimaryOverSecondary));
    assert_eq!(PlotMode::from_index(3), Ok(PlotMode::SecondaryOverPrimary));
    for index in 0..4usize {
        assert_eq!(PlotMode::from_index(index).unwrap().index(), index);
    }
}

#[test]
fn other_mode_numbers_are_rejected() {
    assert_eq!(PlotMode::from_index(4), Err(DataError::InvalidMode(4)));
    assert_eq!(PlotMode::from_index(usize::MAX), Err(DataError::InvalidMode(usize::MAX)));
}

#[test]
fn project_all_keeps_order_and_length() {
    let now = Instant::new(1_000, 0).unwrap();
    let readings = vec![reading(990, 1.0, 2.0), reading(1_000, 3.0, 4.0), reading(970, 5.0, 6.0)];
    let points = project_all(PlotMode::PrimaryOverTime, now, &readings);
    let numbers: Vec<(f64, f64)> = points.iter().map(|p| (number(p.x), number(p.y))).collect();
    assert_eq!(numbers, vec![(-10.0, 1.0), (0.0, 3.0), (-30.0, 5.0)]);
    assert_eq!(project_all(PlotMode::PrimaryOverTime, now, &Vec::new()), Vec::<PlotPoint>::new());
}

#[test]
fn plot_outcome_passes_failures_on() {
    let now = Instant::new(1_000, 0).unwrap();
    assert_eq!(
        plot_outcome(PlotMode::PrimaryOverTime, Err(DataError::Database("locked".to_string())), now),
        Err(DataError::Database("locked".to_string()))
    );
    assert_eq!(
        plot_outcome(PlotMode::SecondaryOverTime, Err(DataError::MalformedRow(1)), now),
        Err(DataError::MalformedRow(1))
    );
}

#[test]
fn plot_outcome_projects_what_was_fetched() {
    let now = Instant::new(1_000, 0).unwrap();
    let fetched = vec![reading(1, 3.0, 7.0), reading(990, 4.0, 8.0)];
    let points = plot_outcome(PlotMode::SecondaryOverPrimary, Ok(fetched.clone()), now).unwrap();
    let numbers: Vec<(f64, f64)> = points.iter().map(|p| (number(p.x), number(p.y))).collect();
    assert_eq!(numbers, vec![(3.0, 7.0), (4.0, 8.0)]);
    let points = plot_outcome(PlotMode::SecondaryOverTime, Ok(fetched), now).unwrap();
    let numbers: Vec<(f64, f64)> = points.iter().map(|p| (number(p.x), number(p.y))).collect();
    assert_eq!(numbers, vec![(-999.0, 7.0), (-10.0, 8.0)]);
}
