//! Points in time: the moment "now", which the caller reads off its clock,
//! and the recording times that the database stores as text.

use vstd::prelude::*;
use crate::reading::{timestamp_in_range, MAX_TIMESTAMP, MIN_TIMESTAMP};

verus! {

/// The layout of a stored recording time: year, month, day, hour, minute and
/// second, as in `2024-01-01 00:00:00`.
pub const TIME_FORMAT: &'static str = "%Y-%m-%d %H:%M:%S";

/// A moment: whole seconds since the Unix epoch, and the nanoseconds past
/// that second.
#[derive(Clone, Copy, Debug, PartialEq, Eq, Structural)]
pub struct Instant {
    pub secs: i64,
    pub nanos: u32,
}

impl Instant {
    pub open spec fn wf(&self) -> bool {
        timestamp_in_range(self.secs as int)
    }

    /// The moment `nanos` nanoseconds past second `secs`, where a timestamp
    /// can hold that second.
    pub fn new(secs: i64, nanos: u32) -> (instant: Option<Instant>)
        ensures
            instant == if timestamp_in_range(secs as int) {
                Some(Instant { secs, nanos })
            } else {
                None
            },
            instant is Some ==> instant.unwrap().wf(),
    {
        if secs < MIN_TIMESTAMP || secs > MAX_TIMESTAMP {
            None
        } else {
            Some(Instant { secs, nanos })
        }
    }
}

/// The whole seconds that have passed from second `then` to the moment `now`,
/// rounded toward zero. Negative where `then` lies in the future.
pub open spec fn elapsed_seconds(now: Instant, then: int) -> int {
    let whole = now.secs - then;
    if whole < 0 && now.nanos > 0 {
        whole + 1
    } else {
        whole
    }
}

pub fn seconds_since(now: Instant, then: i64) -> (elapsed: i64)
    requires
        now.wf(),
        timestamp_in_range(then as int),
    ensures
        elapsed == elapsed_seconds(now, then as int),
{
    let whole: i64 = now.secs - then;
    if whole < 0 && now.nanos > 0 {
        whole + 1
    } else {
        whole
    }
}

/// The second that a text denotes when it is read in a given layout,
/// counted from the Unix epoch; `None` for text that is not in that layout or
/// names no date that exists. A leap second counts as the second before it.
pub uninterp spec fn parsed_timestamp(text: Seq<char>, format: Seq<char>) -> Option<i64>;

/// Calls `chrono::NaiveDateTime::parse_from_str` with the text and the
/// layout, and `chrono::DateTime::timestamp` on what it gives. The contract
/// claims only that the outcome is a function of the text and the layout.
#[verifier::external_body]
pub(crate) fn parse_timestamp(text: &str, format: &str) -> (secs: Option<i64>)
    ensures
        secs == parsed_timestamp(text@, format@),
{
    match chrono::NaiveDateTime::parse_from_str(text, format) {
        Ok(time) => Some(time.and_utc().timestamp()),
        Err(_) => None,
    }
}

/// The recording time of second `secs` in the stored layout; `None` for a
/// second beyond the calendar.
pub uninterp spec fn timestamp_text(secs: i64) -> Option<Seq<char>>;

/// Calls `chrono::DateTime::from_timestamp` with no nanoseconds, and writes
/// its `naive_utc` out through `Display`. The contract claims only that the
/// outcome is a function of the second.
#[verifier::external_body]
pub(crate) fn format_timestamp(secs: i64) -> (text: Option<String>)
    ensures
        text is Some <==> timestamp_text(secs) is Some,
        text is Some ==> text->0@ == timestamp_text(secs)->0,
{
    match chrono::DateTime::from_timestamp(secs, 0) {
        Some(time) => Some(format!("{}", time.naive_utc())),
        None => None,
    }
}

} // verus!
