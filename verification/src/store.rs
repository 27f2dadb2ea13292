//! The database: fetching a kind's recent readings, and clearing a kind's
//! table.
//!
//! A `Database` keeps, beside its connection, a record of every statement
//! that this library has handed to it. The record exists in proofs only, and
//! it grows only where a statement is handed over: in the contracts of the
//! two calls that do so. It lets a contract say which statements a function
//! sends, and that it sends no others.

use vstd::prelude::*;
use rusqlite::types::ValueRef;
use crate::clock::{parse_timestamp, parsed_timestamp, TIME_FORMAT};
use crate::error::DataError;
use crate::query::{delete_query, delete_query_text, select_query, select_query_text};
use crate::reading::{
    build_reading, row_of_cells, spec_reading, Cell, RawRow, SensorReading, ID_COLUMN,
    PRIMARY_COLUMN, SECONDARY_COLUMN, TIME_COLUMN,
};
use crate::sensor::SensorKind;
use crate::query::lemma_select_query_scoped;
use crate::window::Window;

verus! {

#[verifier::external_type_specification]
#[verifier::external_body]
pub struct ExConnection(rusqlite::Connection);

#[verifier::external_type_specification]
#[verifier::external_body]
pub struct ExStatement<'conn>(rusqlite::Statement<'conn>);

#[verifier::external_type_specification]
#[verifier::external_body]
pub struct ExRows<'stmt>(rusqlite::Rows<'stmt>);

#[verifier::external_type_specification]
#[verifier::external_body]
pub struct ExRow<'stmt>(rusqlite::Row<'stmt>);

#[verifier::external_type_specification]
#[verifier::external_body]
pub struct ExError(rusqlite::Error);

/// Calls `rusqlite::Statement::query` without parameters. Nothing is claimed.
#[verifier::external_body]
fn start_query<'stmt>(statement: &'stmt mut rusqlite::Statement<'_>) -> (rows: Result<
    rusqlite::Rows<'stmt>,
    rusqlite::Error,
>) {
    statement.query([])
}

/// Calls `rusqlite::Rows::next`: the next row of a running query, or `None`
/// once the database has no more. Nothing is claimed of what the database
/// holds.
#[verifier::external_body]
fn next_row<'rows, 'stmt>(rows: &'rows mut rusqlite::Rows<'stmt>) -> (row: Result<
    Option<&'rows rusqlite::Row<'stmt>>,
    rusqlite::Error,
>) {
    rows.next()
}

/// Calls `rusqlite::Row::get_ref`, tells the variants of the
/// `rusqlite::types::ValueRef` it gives apart and copies what each holds: a
/// real number as its bit pattern (`to_bits`), text by
/// `String::from_utf8_lossy`. Nothing is claimed of what the row holds.
#[verifier::external_body]
fn read_cell(row: &rusqlite::Row<'_>, column: usize) -> (cell: Result<Cell, rusqlite::Error>) {
    Ok(match row.get_ref(column)? {
        ValueRef::Null => Cell::Null,
        ValueRef::Integer(i) => Cell::Integer(i),
        ValueRef::Real(r) => Cell::Real(r.to_bits()),
        ValueRef::Text(t) => Cell::Text(String::from_utf8_lossy(t).into_owned()),
        ValueRef::Blob(b) => Cell::Blob(b.to_vec()),
    })
}

/// Writes a `rusqlite::Error` out through its `Display`.
#[verifier::external_body]
fn error_text(error: &rusqlite::Error) -> (text: String) {
    format!("{}", error)
}

/// A connection to the database, opened by the caller and kept for as long
/// as readings are shown.
pub struct Database {
    conn: rusqlite::Connection,
    issued: Ghost<Seq<Seq<char>>>,
}

impl Database {
    /// The statements that this library has handed to the database over
    /// this connection so far, oldest first.
    pub closed spec fn issued(&self) -> Seq<Seq<char>> {
        self.issued@
    }

    /// The connection that this database holds.
    pub closed spec fn spec_connection(&self) -> &rusqlite::Connection {
        &self.conn
    }

    /// Takes charge of an open connection. Nothing has been sent yet.
    pub fn new(conn: rusqlite::Connection) -> (db: Database)
        ensures
            db.issued() == Seq::<Seq<char>>::empty(),
            *db.spec_connection() == conn,
    {
        Database { conn, issued: Ghost(Seq::empty()) }
    }

    /// The connection itself, for whoever fills or inspects the database by
    /// other means.
    pub fn connection(&self) -> (conn: &rusqlite::Connection)
        ensures
            conn == self.spec_connection(),
    {
        &self.conn
    }
}

/// Calls `rusqlite::Connection::prepare` with `sql` on the connection that
/// the database holds. The contract claims that `sql` is what was handed to
/// the database, which the record then shows, and that the connection is the
/// same afterwards. Whether the database accepts the statement is up to the
/// database: nothing is claimed of the result.
#[verifier::external_body]
fn prepare<'conn>(db: &'conn mut Database, sql: &str) -> (statement: Result<
    rusqlite::Statement<'conn>,
    rusqlite::Error,
>)
    ensures
        final(db).issued() == old(db).issued().push(sql@),
        final(db).spec_connection() == old(db).spec_connection(),
{
    db.conn.prepare(sql)
}

/// Calls `rusqlite::Connection::execute` with `sql` and no parameters on the
/// connection that the database holds, and hands back the number of rows it
/// reports as changed. The contract claims that `sql` is what was handed to
/// the database, which the record then shows, and that the connection is the
/// same afterwards; nothing is claimed of the result.
#[verifier::external_body]
fn execute(db: &mut Database, sql: &str) -> (changed: Result<usize, rusqlite::Error>)
    ensures
        final(db).issued() == old(db).issued().push(sql@),
        final(db).spec_connection() == old(db).spec_connection(),
{
    db.conn.execute(sql, [])
}

/// The reading of a stored row: its recording time is parsed in the stored
/// layout, and the rest is `spec_reading`.
pub open spec fn spec_decode_row(row: &RawRow) -> Result<SensorReading, usize> {
    spec_reading(
        row,
        match row.recording_time {
            Cell::Text(text) => parsed_timestamp(text@, TIME_FORMAT@),
            _ => None,
        },
    )
}

pub fn decode_row(row: &RawRow) -> (reading: Result<SensorReading, DataError>)
    ensures
        match spec_decode_row(row) {
            Ok(r) => reading == Ok::<SensorReading, DataError>(r) && r.wf(),
            Err(column) => reading == Err::<SensorReading, DataError>(
                DataError::MalformedRow(column),
            ),
        },
{
    let parsed: Option<i64> = match &row.recording_time {
        Cell::Text(text) => parse_timestamp(text.as_str(), TIME_FORMAT),
        _ => None,
    };
    build_reading(row, parsed)
}

/// Every reading of a sequence is well formed.
pub open spec fn all_wf(readings: Seq<SensorReading>) -> bool {
    forall|i: int| 0 <= i < readings.len() ==> (#[trigger] readings[i]).wf()
}

/// Every row up to, and without, row `n` is a reading.
pub open spec fn all_decode(rows: Seq<RawRow>, n: int) -> bool {
    forall|i: int| 0 <= i < n ==> spec_decode_row(&#[trigger] rows[i]) is Ok
}

/// The readings are those of the rows, one for one and in order.
pub open spec fn decodes_to(rows: Seq<RawRow>, readings: Seq<SensorReading>) -> bool {
    &&& readings.len() == rows.len()
    &&& forall|i: int|
        0 <= i < rows.len() ==> spec_decode_row(&#[trigger] rows[i]) == Ok::<SensorReading, usize>(
            readings[i],
        )
}

/// Row `i` is the first that is no reading.
pub open spec fn first_malformed(rows: Seq<RawRow>, i: int) -> bool {
    &&& 0 <= i < rows.len()
    &&& all_decode(rows, i)
    &&& spec_decode_row(&rows[i]) is Err
}

/// Turns stored rows into readings, one for one and in order. A single row
/// that is no reading fails the whole: the first such row is reported, by
/// its offending column.
pub fn decode_rows(rows: &Vec<RawRow>) -> (result: Result<Vec<SensorReading>, DataError>)
    ensures
        all_decode(rows@, rows@.len() as int) <==> result is Ok,
        result matches Ok(readings) ==> decodes_to(rows@, readings@) && all_wf(readings@),
        result matches Err(e) ==> exists|i: int| #[trigger]
            first_malformed(rows@, i) && e == DataError::MalformedRow(
                spec_decode_row(&rows@[i])->Err_0,
            ),
{
    let mut readings: Vec<SensorReading> = Vec::new();
    let mut i: usize = 0;
    while i < rows.len()
        invariant
            0 <= i <= rows.len(),
            readings.len() == i,
            all_decode(rows@, i as int),
            all_wf(readings@),
            forall|k: int|
                0 <= k < i ==> spec_decode_row(&#[trigger] rows@[k]) == Ok::<SensorReading, usize>(
                    readings@[k],
                ),
        decreases rows.len() - i,
    {
        match decode_row(&rows[i]) {
            Ok(reading) => {
                readings.push(reading);
            },
            Err(e) => {
                assert(first_malformed(rows@, i as int));
                return Err(e);
            },
        }
        i = i + 1;
    }
    Ok(readings)
}

fn database_error(error: &rusqlite::Error) -> (e: DataError)
    ensures
        e is Database,
{
    DataError::Database(error_text(error))
}

/// Reads the four columns of a reading out of a row of the database. What
/// becomes of the four cells, or of a failure to read one, is `row_of_cells`.
fn read_row(row: &rusqlite::Row<'_>) -> (result: Result<RawRow, DataError>)
    ensures
        result matches Err(e) ==> e is Database,
{
    let id = read_cell(row, ID_COLUMN);
    let recording_time = read_cell(row, TIME_COLUMN);
    let data_1 = read_cell(row, PRIMARY_COLUMN);
    let data_2 = read_cell(row, SECONDARY_COLUMN);
    match row_of_cells(id, recording_time, data_1, data_2) {
        Ok(raw) => Ok(raw),
        Err(error) => Err(database_error(&error)),
    }
}

/// Steps through the rows of a running query until the database has no more.
/// What becomes of each answer of the database is `keep_row`.
fn collect_rows(rows: &mut rusqlite::Rows<'_>) -> (result: Result<Vec<RawRow>, DataError>)
    ensures
        result matches Err(e) ==> e is Database || e is TooManyRows,
{
    let mut collected: Vec<RawRow> = Vec::new();
    while collected.len() < usize::MAX
        decreases usize::MAX - collected.len(),
    {
        let answer = match next_row(rows) {
            Ok(Some(row)) => match read_row(row) {
                Ok(raw) => Ok(Some(raw)),
                Err(e) => Err(e),
            },
            Ok(None) => Ok(None),
            Err(error) => Err(database_error(&error)),
        };
        match keep_row(&mut collected, answer) {
            Ok(true) => {},
            Ok(false) => {
                return Ok(collected);
            },
            Err(e) => {
                return Err(e);
            },
        }
    }
    Err(DataError::TooManyRows)
}

/// Takes the database's answer to the request for the next row. A row is
/// appended to those collected, and the fetch goes on (`true`); the end of
/// the rows ends the fetch (`false`) and a failure is handed on, and either
/// leaves the collected rows as they are.
pub fn keep_row(collected: &mut Vec<RawRow>, answer: Result<Option<RawRow>, DataError>) -> (more:
    Result<bool, DataError>)
    ensures
        match answer {
            Ok(Some(row)) => more == Ok::<bool, DataError>(true) && final(collected)@ == old(
                collected,
            )@.push(row),
            Ok(None) => more == Ok::<bool, DataError>(false) && final(collected)@ == old(
                collected,
            )@,
            Err(e) => more == Err::<bool, DataError>(e) && final(collected)@ == old(collected)@,
        },
{
    match answer {
        Ok(Some(row)) => {
            collected.push(row);
            Ok(true)
        },
        Ok(None) => Ok(false),
        Err(e) => Err(e),
    }
}

/// Fetches the readings of `kind` that the database, by its own clock, holds
/// as recorded within the last `window` minutes, in the order in which the
/// database yields them.
///
/// Exactly one statement is sent, `select_query(kind, window)`. Which rows
/// come back is up to the database; the readings are what `decode_rows`
/// makes of them.
pub fn fetch_readings(db: &mut Database, kind: SensorKind, window: &Window) -> (result: Result<
    Vec<SensorReading>,
    DataError,
>)
    ensures
        final(db).issued() == old(db).issued().push(select_query_text(kind, window@)),
        final(db).spec_connection() == old(db).spec_connection(),
        match result {
            Ok(readings) => all_wf(readings@) && exists|rows: Seq<RawRow>| #[trigger]
                decodes_to(rows, readings@),
            Err(DataError::MalformedRow(column)) => column <= SECONDARY_COLUMN,
            Err(e) => e is Database || e is TooManyRows,
        },
{
    let query = select_query(kind, window);
    let mut statement = match prepare(db, query.as_str()) {
        Ok(statement) => statement,
        Err(error) => {
            return Err(database_error(&error));
        },
    };
    let mut rows = match start_query(&mut statement) {
        Ok(rows) => rows,
        Err(error) => {
            return Err(database_error(&error));
        },
    };
    match collect_rows(&mut rows) {
        Ok(collected) => {
            let decoded = decode_rows(&collected);
            assert(decoded matches Ok(readings) ==> decodes_to(collected@, readings@));
            decoded
        },
        Err(e) => Err(e),
    }
}

/// What a fetch adds to the record is one statement, which reads from the
/// table of the fetched kind and from the table of no other kind; nothing
/// that was sent before is changed.
pub proof fn lemma_fetch_is_scoped(
    before: Seq<Seq<char>>,
    after: Seq<Seq<char>>,
    kind: SensorKind,
    window: Seq<char>,
    other: SensorKind,
)
    requires
        after == before.push(select_query_text(kind, window)),
    ensures
        after.len() == before.len() + 1,
        after.subrange(0, before.len() as int) == before,
        after.last().subrange(0, 14) == "SELECT * FROM "@,
        after.last().subrange(14, 22) == kind.spec_table_name(),
        after.last()[22] == ' ',
        other != kind ==> after.last().subrange(14, 22) != other.spec_table_name(),
{
    lemma_select_query_scoped(kind, window, other);
    assert(after.subrange(0, before.len() as int) =~= before);
}

/// Deletes every reading of `kind`. Exactly one statement is sent,
/// `delete_query(kind)`; a failure of the database is reported.
pub fn clear_readings(db: &mut Database, kind: SensorKind) -> (result: Result<(), DataError>)
    ensures
        final(db).issued() == old(db).issued().push(delete_query_text(kind)),
        final(db).spec_connection() == old(db).spec_connection(),
        result matches Err(e) ==> e is Database,
{
    let query = delete_query(kind);
    match execute(db, query.as_str()) {
        Ok(_) => Ok(()),
        Err(error) => Err(database_error(&error)),
    }
}

} // verus!
