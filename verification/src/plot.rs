//! Turning readings into the points of a plot.

use vstd::prelude::*;
use crate::clock::{elapsed_seconds, seconds_since, Instant};
use crate::error::DataError;
use crate::reading::{Measurement, RawRow, SensorReading, SECONDARY_COLUMN};
use crate::sensor::SensorKind;
use crate::query::select_query_text;
use crate::store::{all_wf, decodes_to, fetch_readings, Database};
use crate::window::Window;

verus! {

/// Which two parts of a reading become a point's x and y.
#[derive(Clone, Copy, Debug, PartialEq, Eq, Structural)]
pub enum PlotMode {
    /// x: seconds relative to now; y: the primary value.
    PrimaryOverTime,
    /// x: seconds relative to now; y: the secondary value.
    SecondaryOverTime,
    /// x: the secondary value; y: the primary value.
    PrimaryOverSecondary,
    /// x: the primary value; y: the secondary value.
    SecondaryOverPrimary,
}

impl PlotMode {
    pub open spec fn spec_index(self) -> usize {
        match self {
            PlotMode::PrimaryOverTime => 0,
            PlotMode::SecondaryOverTime => 1,
            PlotMode::PrimaryOverSecondary => 2,
            PlotMode::SecondaryOverPrimary => 3,
        }
    }

    /// The number of a mode.
    #[verifier::when_used_as_spec(spec_index)]
    pub fn index(self) -> (index: usize)
        ensures
            index == self.spec_index(),
    {
        match self {
            PlotMode::PrimaryOverTime => 0,
            PlotMode::SecondaryOverTime => 1,
            PlotMode::PrimaryOverSecondary => 2,
            PlotMode::SecondaryOverPrimary => 3,
        }
    }

    /// The mode that a number names, if it names one.
    pub open spec fn spec_from_index(index: usize) -> Option<PlotMode> {
        if index == 0 {
            Some(PlotMode::PrimaryOverTime)
        } else if index == 1 {
            Some(PlotMode::SecondaryOverTime)
        } else if index == 2 {
            Some(PlotMode::PrimaryOverSecondary)
        } else if index == 3 {
            Some(PlotMode::SecondaryOverPrimary)
        } else {
            None
        }
    }

    /// The mode with a given number. Numbers above 3 name no mode and are
    /// rejected.
    pub fn from_index(index: usize) -> (mode: Result<PlotMode, DataError>)
        ensures
            mode == match PlotMode::spec_from_index(index) {
                Some(m) => Ok::<PlotMode, DataError>(m),
                None => Err::<PlotMode, DataError>(DataError::InvalidMode(index)),
            },
            index <= 3 ==> mode is Ok && mode->Ok_0.spec_index() == index,
            index > 3 ==> mode == Err::<PlotMode, DataError>(DataError::InvalidMode(index)),
    {
        if index == 0 {
            Ok(PlotMode::PrimaryOverTime)
        } else if index == 1 {
            Ok(PlotMode::SecondaryOverTime)
        } else if index == 2 {
            Ok(PlotMode::PrimaryOverSecondary)
        } else if index == 3 {
            Ok(PlotMode::SecondaryOverPrimary)
        } else {
            Err(DataError::InvalidMode(index))
        }
    }
}

/// One coordinate of a point: a count of seconds, or a stored measurement.
#[derive(Clone, Copy, Debug, PartialEq, Eq, Structural)]
pub enum Coord {
    Seconds(i64),
    Value(Measurement),
}

#[derive(Clone, Copy, Debug, PartialEq, Eq, Structural)]
pub struct PlotPoint {
    pub x: Coord,
    pub y: Coord,
}

/// The position of a reading on the time axis at the moment `now`: minus the
/// whole seconds elapsed since it was recorded. A reading of the past lies
/// left of zero, one recorded this second at zero.
pub open spec fn time_coordinate(now: Instant, reading: SensorReading) -> int {
    -elapsed_seconds(now, reading.timestamp as int)
}

/// The point that a reading becomes under a mode, at the moment `now`.
pub open spec fn spec_project(mode: PlotMode, now: Instant, reading: SensorReading) -> PlotPoint {
    match mode {
        PlotMode::PrimaryOverTime => PlotPoint {
            x: Coord::Seconds(time_coordinate(now, reading) as i64),
            y: Coord::Value(reading.primary_value),
        },
        PlotMode::SecondaryOverTime => PlotPoint {
            x: Coord::Seconds(time_coordinate(now, reading) as i64),
            y: Coord::Value(reading.secondary_value),
        },
        PlotMode::PrimaryOverSecondary => PlotPoint {
            x: Coord::Value(reading.secondary_value),
            y: Coord::Value(reading.primary_value),
        },
        PlotMode::SecondaryOverPrimary => PlotPoint {
            x: Coord::Value(reading.primary_value),
            y: Coord::Value(reading.secondary_value),
        },
    }
}

/// The points of a sequence of readings, one for one and in order.
pub open spec fn spec_project_all(mode: PlotMode, now: Instant, readings: Seq<SensorReading>) -> Seq<
    PlotPoint,
> {
    Seq::new(readings.len(), |i: int| spec_project(mode, now, readings[i]))
}

pub fn project(mode: PlotMode, now: Instant, reading: &SensorReading) -> (point: PlotPoint)
    requires
        now.wf(),
        reading.wf(),
    ensures
        point == spec_project(mode, now, *reading),
{
    match mode {
        PlotMode::PrimaryOverTime => PlotPoint {
            x: Coord::Seconds(-seconds_since(now, reading.timestamp)),
            y: Coord::Value(reading.primary_value),
        },
        PlotMode::SecondaryOverTime => PlotPoint {
            x: Coord::Seconds(-seconds_since(now, reading.timestamp)),
            y: Coord::Value(reading.secondary_value),
        },
        PlotMode::PrimaryOverSecondary => PlotPoint {
            x: Coord::Value(reading.secondary_value),
            y: Coord::Value(reading.primary_value),
        },
        PlotMode::SecondaryOverPrimary => PlotPoint {
            x: Coord::Value(reading.primary_value),
            y: Coord::Value(reading.secondary_value),
        },
    }
}

pub fn project_all(mode: PlotMode, now: Instant, readings: &Vec<SensorReading>) -> (points: Vec<
    PlotPoint,
>)
    requires
        now.wf(),
        all_wf(readings@),
    ensures
        points@ == spec_project_all(mode, now, readings@),
{
    let mut points: Vec<PlotPoint> = Vec::new();
    let mut i: usize = 0;
    while i < readings.len()
        invariant
            now.wf(),
            all_wf(readings@),
            0 <= i <= readings.len(),
            points.len() == i,
            forall|k: int| 0 <= k < i ==> #[trigger] points[k] == spec_project(mode, now, readings[k]),
        decreases readings.len() - i,
    {
        points.push(project(mode, now, &readings[i]));
        i = i + 1;
    }
    assert(points@ =~= spec_project_all(mode, now, readings@));
    points
}

/// What a plot shows at the moment `now`, given the outcome of the fetch: the
/// failure of the fetch, else the points of the fetched readings.
pub open spec fn spec_plot_outcome(
    mode: PlotMode,
    fetched: Result<Vec<SensorReading>, DataError>,
    now: Instant,
) -> Result<Seq<PlotPoint>, DataError> {
    match fetched {
        Err(e) => Err(e),
        Ok(readings) => Ok(spec_project_all(mode, now, readings@)),
    }
}

/// Turns the outcome of a fetch into what a plot shows at the moment `now`.
pub fn plot_outcome(mode: PlotMode, fetched: Result<Vec<SensorReading>, DataError>, now: Instant) -> (result:
    Result<Vec<PlotPoint>, DataError>)
    requires
        fetched is Ok ==> all_wf(fetched->Ok_0@),
        now.wf(),
    ensures
        match spec_plot_outcome(mode, fetched, now) {
            Ok(points) => result is Ok && result->Ok_0@ == points,
            Err(e) => result == Err::<Vec<PlotPoint>, DataError>(e),
        },
{
    match fetched {
        Ok(readings) => Ok(project_all(mode, now, &readings)),
        Err(e) => Err(e),
    }
}

/// The points are those of some well-formed readings that decode from rows
/// of the database, under a mode and at a moment.
pub open spec fn points_of_fetch(mode: PlotMode, now: Instant, points: Seq<PlotPoint>) -> bool {
    exists|readings: Seq<SensorReading>| #[trigger]
        all_wf(readings) && points == spec_project_all(mode, now, readings) && (exists|
            rows: Seq<RawRow>,
        | #[trigger] decodes_to(rows, readings))
}

/// Fetches a kind's readings of the last `window` minutes and turns them
/// into the points of a plot as of `now`, the moment that the caller has
/// read off its clock.
///
/// The mode number is checked first: a number that names no mode is rejected
/// and nothing is sent to the database. Otherwise one fetch is made, and the
/// result is `plot_outcome` of the fetch.
pub fn plot_points(
    db: &mut Database,
    kind: SensorKind,
    window: &Window,
    mode_index: usize,
    now: Instant,
) -> (result: Result<Vec<PlotPoint>, DataError>)
    requires
        now.wf(),
    ensures
        mode_index > 3 <==> result is Err && result->Err_0.is_validation(),
        mode_index > 3 ==> result == Err::<Vec<PlotPoint>, DataError>(
            DataError::InvalidMode(mode_index),
        ) && final(db).issued() == old(db).issued(),
        mode_index <= 3 ==> final(db).issued() == old(db).issued().push(
            select_query_text(kind, window@),
        ),
        final(db).spec_connection() == old(db).spec_connection(),
        result matches Ok(points) ==> points_of_fetch(
            PlotMode::spec_from_index(mode_index)->0,
            now,
            points@,
        ),
        result matches Err(DataError::MalformedRow(column)) ==> column <= SECONDARY_COLUMN,
{
    let mode = match PlotMode::from_index(mode_index) {
        Ok(mode) => mode,
        Err(e) => {
            return Err(e);
        },
    };
    let fetched = fetch_readings(db, kind, window);
    let ghost readings = if fetched is Ok {
        fetched->Ok_0@
    } else {
        Seq::empty()
    };
    let result = plot_outcome(mode, fetched, now);
    assert(result matches Ok(points) ==> all_wf(readings) && points@ == spec_project_all(
        mode,
        now,
        readings,
    ));
    result
}

/// Modes 2 and 3 are axis swaps of each other: for any reading, at any
/// moment, the x of one is the y of the other.
pub proof fn lemma_axis_swap(now: Instant, reading: SensorReading)
    ensures
        spec_project(PlotMode::PrimaryOverSecondary, now, reading).x == spec_project(
            PlotMode::SecondaryOverPrimary,
            now,
            reading,
        ).y,
        spec_project(PlotMode::PrimaryOverSecondary, now, reading).y == spec_project(
            PlotMode::SecondaryOverPrimary,
            now,
            reading,
        ).x,
        spec_project(PlotMode::PrimaryOverSecondary, now, reading).x == Coord::Value(
            reading.secondary_value,
        ),
        spec_project(PlotMode::PrimaryOverSecondary, now, reading).y == Coord::Value(
            reading.primary_value,
        ),
{
}

/// The modes that plot against values ignore the clock.
pub proof fn lemma_value_modes_ignore_time(
    mode: PlotMode,
    now: Instant,
    later: Instant,
    reading: SensorReading,
)
    requires
        mode is PrimaryOverSecondary || mode is SecondaryOverPrimary,
    ensures
        spec_project(mode, now, reading) == spec_project(mode, later, reading),
{
}

/// The time axis counts whole seconds without loss. A reading of the past
/// lies left of zero on it, and a reading recorded in the current second
/// lies at zero.
pub proof fn lemma_time_axis(now: Instant, reading: SensorReading)
    requires
        now.wf(),
        reading.wf(),
    ensures
        spec_project(PlotMode::PrimaryOverTime, now, reading).x == Coord::Seconds(
            time_coordinate(now, reading) as i64,
        ),
        time_coordinate(now, reading) as i64 == time_coordinate(now, reading),
        reading.timestamp < now.secs ==> time_coordinate(now, reading) < 0,
        reading.timestamp == now.secs ==> time_coordinate(now, reading) == 0,
        reading.timestamp > now.secs ==> time_coordinate(now, reading) >= 0,
{
}

} // verus!
