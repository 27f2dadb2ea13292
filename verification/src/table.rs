//! The table view: one line of text for each reading.

use vstd::prelude::*;
use crate::clock::{format_timestamp, timestamp_text};
use crate::reading::SensorReading;

verus! {

/// The line of a reading, from the texts of its four parts.
pub open spec fn spec_table_line(
    time: Seq<char>,
    id: Seq<char>,
    primary: Seq<char>,
    secondary: Seq<char>,
) -> Seq<char> {
    "Recording Time: "@ + time + ", ID: "@ + id + ", Data_1: "@ + primary + ", Data_2: "@
        + secondary
}

/// Puts the texts of a reading's four parts together into its line.
pub fn table_line(time: &str, id: &str, primary: &str, secondary: &str) -> (line: String)
    ensures
        line@ == spec_table_line(time@, id@, primary@, secondary@),
{
    let mut line = String::from_str("Recording Time: ");
    line.append(time);
    line.append(", ID: ");
    line.append(id);
    line.append(", Data_1: ");
    line.append(primary);
    line.append(", Data_2: ");
    line.append(secondary);
    line
}

/// The character of a digit.
pub open spec fn spec_digit(d: nat) -> char {
    if d == 0 {
        '0'
    } else if d == 1 {
        '1'
    } else if d == 2 {
        '2'
    } else if d == 3 {
        '3'
    } else if d == 4 {
        '4'
    } else if d == 5 {
        '5'
    } else if d == 6 {
        '6'
    } else if d == 7 {
        '7'
    } else if d == 8 {
        '8'
    } else {
        '9'
    }
}

/// A natural number in decimal: its digits from the highest to the lowest,
/// with no leading zero but for zero itself.
pub open spec fn spec_decimal_nat(n: nat) -> Seq<char>
    decreases n,
{
    if n < 10 {
        seq![spec_digit(n)]
    } else {
        spec_decimal_nat(n / 10).push(spec_digit(n % 10))
    }
}

/// A whole number in decimal: a minus sign where it is negative, then its
/// magnitude.
pub open spec fn spec_decimal(value: int) -> Seq<char> {
    if value < 0 {
        seq!['-'] + spec_decimal_nat((-value) as nat)
    } else {
        spec_decimal_nat(value as nat)
    }
}

fn digit_text(d: u64) -> (text: &'static str)
    requires
        d < 10,
    ensures
        text@ == seq![spec_digit(d as nat)],
{
    proof {
        reveal_strlit("0");
        reveal_strlit("1");
        reveal_strlit("2");
        reveal_strlit("3");
        reveal_strlit("4");
        reveal_strlit("5");
        reveal_strlit("6");
        reveal_strlit("7");
        reveal_strlit("8");
        reveal_strlit("9");
    }
    let text = if d == 0 {
        "0"
    } else if d == 1 {
        "1"
    } else if d == 2 {
        "2"
    } else if d == 3 {
        "3"
    } else if d == 4 {
        "4"
    } else if d == 5 {
        "5"
    } else if d == 6 {
        "6"
    } else if d == 7 {
        "7"
    } else if d == 8 {
        "8"
    } else {
        "9"
    };
    assert(text@ =~= seq![spec_digit(d as nat)]);
    text
}

fn magnitude_text(n: u64) -> (text: String)
    ensures
        text@ == spec_decimal_nat(n as nat),
    decreases n,
{
    if n < 10 {
        String::from_str(digit_text(n))
    } else {
        let mut text = magnitude_text(n / 10);
        text.append(digit_text(n % 10));
        assert(text@ =~= spec_decimal_nat(n as nat));
        text
    }
}

/// Writes a whole number in decimal.
pub fn decimal_text(value: i64) -> (text: String)
    ensures
        text@ == spec_decimal(value as int),
{
    if value < 0 {
        let magnitude: u64 = if value == i64::MIN {
            9_223_372_036_854_775_808
        } else {
            (-value) as u64
        };
        proof {
            reveal_strlit("-");
        }
        let mut text = String::from_str("-");
        text.append(magnitude_text(magnitude).as_str());
        assert(text@ =~= spec_decimal(value as int));
        text
    } else {
        magnitude_text(value as u64)
    }
}

/// The line of a reading whose recording time the calendar can show, given
/// the texts of its two values; `None` for any other reading. The recording
/// time stands in the stored layout, the identifier in decimal.
pub fn reading_line(reading: &SensorReading, primary: &str, secondary: &str) -> (line: Option<
    String,
>)
    ensures
        line is Some <==> timestamp_text(reading.timestamp) is Some,
        line is Some ==> line->0@ == spec_table_line(
            timestamp_text(reading.timestamp)->0,
            spec_decimal(reading.id as int),
            primary@,
            secondary@,
        ),
{
    match format_timestamp(reading.timestamp) {
        Some(time) => {
            let id = decimal_text(reading.id);
            Some(table_line(time.as_str(), id.as_str(), primary, secondary))
        },
        None => None,
    }
}

} // verus!
