//! The display window: how far back from now a fetch reaches, in minutes.
//!
//! A window is kept as the decimal text that goes into the query, so that the
//! database sees exactly the number the caller chose.

use vstd::prelude::*;
use vstd::string::*;

verus! {

pub open spec fn is_digit(c: char) -> bool {
    '0' <= c && c <= '9'
}

/// `s` is a plain non-negative decimal number: digits, optionally followed by a
/// point and more digits. No sign, no exponent, nothing else.
pub open spec fn is_decimal(s: Seq<char>) -> bool {
    &&& s.len() > 0
    &&& is_digit(s[0])
    &&& is_digit(s[s.len() - 1])
    &&& forall|i: int| 0 <= i < s.len() ==> is_digit(#[trigger] s[i]) || s[i] == '.'
    &&& forall|i: int, j: int|
        0 <= i < j < s.len() && #[trigger] s[i] == '.' ==> #[trigger] s[j] != '.'
}

/// A validated window size in minutes.
#[derive(Debug, PartialEq, Eq)]
pub struct Window {
    text: String,
}

impl Window {
    pub closed spec fn view(&self) -> Seq<char> {
        self.text@
    }

    /// The text of a window is always a plain non-negative decimal number.
    #[verifier::type_invariant]
    pub closed spec fn wf(&self) -> bool {
        is_decimal(self.text@)
    }

    /// Accepts `text` exactly when it is a plain non-negative decimal number.
    pub fn parse(text: &str) -> (window: Option<Window>)
        ensures
            window is Some <==> is_decimal(text@),
            window is Some ==> window.unwrap()@ == text@,
    {
        if is_decimal_text(text) {
            Some(Window { text: String::from_str(text) })
        } else {
            None
        }
    }

    /// The window that is shown until the user chooses another: five minutes.
    pub fn five_minutes() -> (window: Window)
        ensures
            window@ == "5"@,
    {
        proof {
            reveal_strlit("5");
        }
        Window { text: String::from_str("5") }
    }

    /// The window as it is written into a query.
    pub fn as_str(&self) -> (text: &str)
        ensures
            text@ == self@,
            is_decimal(text@),
    {
        proof {
            use_type_invariant(self);
        }
        self.text.as_str()
    }
}

fn is_digit_char(c: char) -> (b: bool)
    ensures
        b == is_digit(c),
{
    '0' <= c && c <= '9'
}

/// Decides `is_decimal` in one pass over the text.
pub fn is_decimal_text(text: &str) -> (ok: bool)
    ensures
        ok == is_decimal(text@),
{
    let n: usize = text.unicode_len();
    if n == 0 {
        return false;
    }
    if !is_digit_char(text.get_char(0)) || !is_digit_char(text.get_char(n - 1)) {
        return false;
    }
    let mut seen_point: bool = false;
    let mut i: usize = 0;
    while i < n
        invariant
            n == text@.len(),
            0 <= i <= n,
            forall|k: int| 0 <= k < i ==> is_digit(#[trigger] text@[k]) || text@[k] == '.',
            forall|k: int, l: int|
                0 <= k < l < i && #[trigger] text@[k] == '.' ==> #[trigger] text@[l] != '.',
            seen_point <==> exists|k: int| 0 <= k < i && #[trigger] text@[k] == '.',
        decreases n - i,
    {
        let c: char = text.get_char(i);
        if c == '.' {
            if seen_point {
                return false;
            }
            seen_point = true;
        } else if !is_digit_char(c) {
            return false;
        }
        i = i + 1;
    }
    true
}

} // verus!
