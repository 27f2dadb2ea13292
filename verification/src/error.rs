//! What can go wrong between the database and the screen. None of it ends the
//! program: every failure is handed back to the caller.

use vstd::prelude::*;

verus! {

#[derive(Debug, PartialEq, Eq)]
pub enum DataError {
    /// The database could not be reached, or refused or failed a statement.
    /// The text is the database's own account of it.
    Database(String),
    /// A stored row is no reading; the number names the offending column.
    MalformedRow(usize),
    /// The database holds more rows than can be held in memory at once.
    TooManyRows,
    /// A plot mode outside the four that exist.
    InvalidMode(usize),
}

impl DataError {
    /// The failure comes from what the caller asked for, not from the
    /// database or its contents.
    pub open spec fn is_validation(&self) -> bool {
        self is InvalidMode
    }

    /// A short description for display in place of the data.
    pub fn message(&self) -> (text: String)
        ensures
            text@ == match self {
                DataError::Database(reason) => reason@,
                DataError::MalformedRow(_) => "a stored row is malformed"@,
                DataError::TooManyRows => "too many rows to display"@,
                DataError::InvalidMode(_) => "invalid plot mode"@,
            },
    {
        match self {
            DataError::Database(reason) => reason.clone(),
            DataError::MalformedRow(_) => String::from_str("a stored row is malformed"),
            DataError::TooManyRows => String::from_str("too many rows to display"),
            DataError::InvalidMode(_) => String::from_str("invalid plot mode"),
        }
    }
}

} // verus!
