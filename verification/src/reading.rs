//! Readings, and how a stored row becomes one.

use vstd::prelude::*;
use crate::error::DataError;

verus! {

/// The earliest and latest second, counted from the Unix epoch, that a
/// timestamp can hold. The span covers every date the calendar can parse and
/// leaves room to subtract any two timestamps.
pub const MIN_TIMESTAMP: i64 = -10_000_000_000_000;

pub const MAX_TIMESTAMP: i64 = 10_000_000_000_000;

/// The column of a stored row that holds each part of a reading.
pub const ID_COLUMN: usize = 0;

pub const TIME_COLUMN: usize = 1;

pub const PRIMARY_COLUMN: usize = 2;

pub const SECONDARY_COLUMN: usize = 3;

pub open spec fn timestamp_in_range(secs: int) -> bool {
    MIN_TIMESTAMP <= secs <= MAX_TIMESTAMP
}

/// A number as the database stores it: a whole number, or a binary64 number
/// given by its bit pattern.
#[derive(Clone, Copy, Debug, PartialEq, Eq, Structural)]
pub enum Measurement {
    Integer(i64),
    Real(u64),
}

impl Measurement {
    /// The value an absent measurement counts as: zero.
    pub open spec fn spec_zero() -> Measurement {
        Measurement::Real(0)
    }

    #[verifier::when_used_as_spec(spec_zero)]
    pub fn zero() -> (m: Measurement)
        ensures
            m == Measurement::spec_zero(),
    {
        Measurement::Real(0)
    }
}

/// One timestamped measurement row of a sensor's table.
#[derive(Clone, Copy, Debug, PartialEq, Eq, Structural)]
pub struct SensorReading {
    /// When the reading was recorded, in seconds since the Unix epoch.
    pub timestamp: i64,
    pub id: i64,
    pub primary_value: Measurement,
    pub secondary_value: Measurement,
}

impl SensorReading {
    pub open spec fn wf(&self) -> bool {
        timestamp_in_range(self.timestamp as int)
    }
}

/// One column of a stored row.
#[derive(Debug, PartialEq, Eq)]
pub enum Cell {
    Null,
    Integer(i64),
    Real(u64),
    Text(String),
    Blob(Vec<u8>),
}

impl Cell {
    /// The number in a cell, if it holds one.
    pub open spec fn spec_number(&self) -> Option<Measurement> {
        match self {
            Cell::Integer(i) => Some(Measurement::Integer(*i)),
            Cell::Real(bits) => Some(Measurement::Real(*bits)),
            _ => None,
        }
    }

    pub fn number(&self) -> (m: Option<Measurement>)
        ensures
            m == self.spec_number(),
    {
        match self {
            Cell::Integer(i) => Some(Measurement::Integer(*i)),
            Cell::Real(bits) => Some(Measurement::Real(*bits)),
            _ => None,
        }
    }
}

/// A row as it comes out of a sensor's table.
#[derive(Debug, PartialEq, Eq)]
pub struct RawRow {
    pub id: Cell,
    pub recording_time: Cell,
    pub data_1: Cell,
    pub data_2: Cell,
}

/// The row that four cells make, where each of them could be read; else the
/// failure of the first, in column order, that could not.
pub open spec fn spec_row_of_cells<E>(
    id: Result<Cell, E>,
    recording_time: Result<Cell, E>,
    data_1: Result<Cell, E>,
    data_2: Result<Cell, E>,
) -> Result<RawRow, E> {
    if id is Err {
        Err(id->Err_0)
    } else if recording_time is Err {
        Err(recording_time->Err_0)
    } else if data_1 is Err {
        Err(data_1->Err_0)
    } else if data_2 is Err {
        Err(data_2->Err_0)
    } else {
        Ok(
            (RawRow {
                id: id->Ok_0,
                recording_time: recording_time->Ok_0,
                data_1: data_1->Ok_0,
                data_2: data_2->Ok_0,
            }),
        )
    }
}

/// Puts the outcomes of reading a row's four columns together.
pub fn row_of_cells<E>(
    id: Result<Cell, E>,
    recording_time: Result<Cell, E>,
    data_1: Result<Cell, E>,
    data_2: Result<Cell, E>,
) -> (row: Result<RawRow, E>)
    ensures
        row == spec_row_of_cells(id, recording_time, data_1, data_2),
{
    let id = match id {
        Ok(cell) => cell,
        Err(e) => {
            return Err(e);
        },
    };
    let recording_time = match recording_time {
        Ok(cell) => cell,
        Err(e) => {
            return Err(e);
        },
    };
    let data_1 = match data_1 {
        Ok(cell) => cell,
        Err(e) => {
            return Err(e);
        },
    };
    let data_2 = match data_2 {
        Ok(cell) => cell,
        Err(e) => {
            return Err(e);
        },
    };
    Ok(RawRow { id, recording_time, data_1, data_2 })
}

/// The reading that a stored row stands for, given what its recording time
/// parses to (`None` where it is no text or does not parse).
///
/// The identifier must be a whole number, the recording time must parse to a
/// second within range, the primary value must be a number, and the secondary
/// value a number or absent; an absent one counts as zero. The first column
/// that fails, in column order, is the one reported.
pub open spec fn spec_reading(row: &RawRow, parsed: Option<i64>) -> Result<SensorReading, usize> {
    if !(row.id is Integer) {
        Err(ID_COLUMN)
    } else if parsed is None || !timestamp_in_range(parsed->0 as int) {
        Err(TIME_COLUMN)
    } else if row.data_1.spec_number() is None {
        Err(PRIMARY_COLUMN)
    } else if !(row.data_2 is Null) && row.data_2.spec_number() is None {
        Err(SECONDARY_COLUMN)
    } else {
        Ok(
            (SensorReading {
                timestamp: parsed->0,
                id: row.id->Integer_0,
                primary_value: row.data_1.spec_number()->0,
                secondary_value: if row.data_2 is Null {
                    Measurement::spec_zero()
                } else {
                    row.data_2.spec_number()->0
                },
            }),
        )
    }
}

/// Builds the reading of `row` from its cells and its parsed recording time.
pub fn build_reading(row: &RawRow, parsed: Option<i64>) -> (reading: Result<
    SensorReading,
    DataError,
>)
    ensures
        match spec_reading(row, parsed) {
            Ok(r) => reading == Ok::<SensorReading, DataError>(r) && r.wf(),
            Err(column) => reading == Err::<SensorReading, DataError>(
                DataError::MalformedRow(column),
            ),
        },
{
    let id: i64 = match &row.id {
        Cell::Integer(i) => *i,
        _ => { return Err(DataError::MalformedRow(ID_COLUMN)); },
    };
    let timestamp: i64 = match parsed {
        Some(secs) => secs,
        None => { return Err(DataError::MalformedRow(TIME_COLUMN)); },
    };
    if timestamp < MIN_TIMESTAMP || timestamp > MAX_TIMESTAMP {
        return Err(DataError::MalformedRow(TIME_COLUMN));
    }
    let primary_value = match row.data_1.number() {
        Some(m) => m,
        None => { return Err(DataError::MalformedRow(PRIMARY_COLUMN)); },
    };
    let secondary_value = match &row.data_2 {
        Cell::Null => Measurement::zero(),
        other => match other.number() {
            Some(m) => m,
            None => { return Err(DataError::MalformedRow(SECONDARY_COLUMN)); },
        },
    };
    Ok(SensorReading { timestamp, id, primary_value, secondary_value })
}

/// A row without a secondary value is a reading just when the same row
/// with a secondary value of zero is one, and it is the same reading: its
/// secondary value is zero.
pub proof fn lemma_null_secondary_is_zero(row: &RawRow, parsed: Option<i64>)
    requires
        row.data_2 is Null,
    ensures
        spec_reading(row, parsed) matches Ok(reading) ==> reading.secondary_value
            == Measurement::Real(0),
        spec_reading(row, parsed) is Ok <==> row.id is Integer && parsed is Some
            && timestamp_in_range(parsed->0 as int) && row.data_1.spec_number() is Some,
{
}

} // verus!
