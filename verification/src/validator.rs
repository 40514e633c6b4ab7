//! Tracking-number validation. The carrier has accumulated many number
//! formats over the years; a raw string is accepted when it matches any of
//! the twelve alternatives below, written here character class by character
//! class. Matching is done on the raw, untrimmed input; only the stored
//! value is trimmed. Matching is case-sensitive except where a class admits
//! both cases.
//!
//! The last alternative mixes anchoring on purpose: its two halves are "at
//! least nine leading digits" and "at least fourteen trailing digits",
//! independently of the rest of the string. That reproduces the documented
//! effective matching set exactly, odd as it reads.

use vstd::prelude::*;
use vstd::string::StrSliceExecFns;

use crate::error::{ClientError, ClientResult};
use crate::text::{
    alnum_in, alnum_range, alpha_in, alpha_range, digits_in, digits_range, has_prefix, is_digit,
    is_digit_char, starts_with, trim, trim_spec,
};

verus! {

/// `p`, then one or more digits and nothing else.
pub open spec fn prefix_then_digits(s: Seq<char>, p: Seq<char>) -> bool {
    starts_with(s, p) && s.len() > p.len() && digits_range(s, p.len() as int, s.len() as int)
}

/// `p`, then one or more letters-or-digits and nothing else.
pub open spec fn prefix_then_alnum(s: Seq<char>, p: Seq<char>) -> bool {
    starts_with(s, p) && s.len() > p.len() && alnum_range(s, p.len() as int, s.len() as int)
}

/// Exactly ten digits.
pub open spec fn pat_ten_digits(s: Seq<char>) -> bool {
    s.len() == 10 && digits_range(s, 0, 10)
}

/// One of the known numeric-series prefixes, then digits.
pub open spec fn pat_numeric_prefix(s: Seq<char>) -> bool {
    ||| prefix_then_digits(s, "000"@)
    ||| prefix_then_digits(s, "JJD01"@)
    ||| prefix_then_digits(s, "JJD00"@)
    ||| prefix_then_digits(s, "JVGL"@)
}

/// `GM`, `LX`, `RX` or any five letters, then digits.
pub open spec fn pat_letter_prefix(s: Seq<char>) -> bool {
    ||| prefix_then_digits(s, "GM"@)
    ||| prefix_then_digits(s, "LX"@)
    ||| prefix_then_digits(s, "RX"@)
    ||| (s.len() >= 6 && alpha_range(s, 0, 5) && digits_range(s, 5, s.len() as int))
}

/// Ten to thirty-nine digits.
pub open spec fn pat_long_digits(s: Seq<char>) -> bool {
    10 <= s.len() <= 39 && digits_range(s, 0, s.len() as int)
}

/// `3S`, `JVGL` or `JJD`, then letters or digits.
pub open spec fn pat_alnum_prefix(s: Seq<char>) -> bool {
    ||| prefix_then_alnum(s, "3S"@)
    ||| prefix_then_alnum(s, "JVGL"@)
    ||| prefix_then_alnum(s, "JJD"@)
}

/// Exactly seven digits.
pub open spec fn pat_seven_digits(s: Seq<char>) -> bool {
    s.len() == 7 && digits_range(s, 0, 7)
}

/// A digit, two letters, then four to six digits.
pub open spec fn pat_digit_letters_digits(s: Seq<char>) -> bool {
    7 <= s.len() <= 9 && is_digit(s[0]) && alpha_range(s, 1, 3) && digits_range(
        s,
        3,
        s.len() as int,
    )
}

/// Three or four letters, then digits.
pub open spec fn pat_letters_then_digits(s: Seq<char>) -> bool {
    ||| (s.len() >= 4 && alpha_range(s, 0, 3) && digits_range(s, 3, s.len() as int))
    ||| (s.len() >= 5 && alpha_range(s, 0, 4) && digits_range(s, 4, s.len() as int))
}

/// Three digits, a hyphen, eight digits.
pub open spec fn pat_three_dash_eight(s: Seq<char>) -> bool {
    s.len() == 12 && digits_range(s, 0, 3) && s[3] == '-' && digits_range(s, 4, 12)
}

/// `a` letters, a hyphen, `b` letters, a hyphen, seven digits.
pub open spec fn letters_dash_shape(s: Seq<char>, a: int, b: int) -> bool {
    &&& s.len() == a + b + 9
    &&& alpha_range(s, 0, a)
    &&& s[a] == '-'
    &&& alpha_range(s, a + 1, a + 1 + b)
    &&& s[a + 1 + b] == '-'
    &&& digits_range(s, a + b + 2, s.len() as int)
}

/// Two or three letters, a hyphen, two or three letters, a hyphen, seven
/// digits.
pub open spec fn pat_letters_dash_letters(s: Seq<char>) -> bool {
    ||| letters_dash_shape(s, 2, 2)
    ||| letters_dash_shape(s, 2, 3)
    ||| letters_dash_shape(s, 3, 2)
    ||| letters_dash_shape(s, 3, 3)
}

/// Four digits, a hyphen, five digits.
pub open spec fn pat_four_dash_five(s: Seq<char>) -> bool {
    s.len() == 10 && digits_range(s, 0, 4) && s[4] == '-' && digits_range(s, 5, 10)
}

/// At least nine leading digits — the unanchored left half of the last
/// alternative: the rest of the string is unconstrained.
pub open spec fn pat_leading_nine_digits(s: Seq<char>) -> bool {
    s.len() >= 9 && digits_range(s, 0, 9)
}

/// At least fourteen trailing digits — the unanchored right half of the last
/// alternative.
pub open spec fn pat_trailing_fourteen_digits(s: Seq<char>) -> bool {
    s.len() >= 14 && digits_range(s, s.len() - 14, s.len() as int)
}

/// A string is a well-formed tracking number when any of the twelve
/// alternatives accepts it.
pub open spec fn matches_dhl(s: Seq<char>) -> bool {
    ||| pat_ten_digits(s)
    ||| pat_numeric_prefix(s)
    ||| pat_letter_prefix(s)
    ||| pat_long_digits(s)
    ||| pat_alnum_prefix(s)
    ||| pat_seven_digits(s)
    ||| pat_digit_letters_digits(s)
    ||| pat_letters_then_digits(s)
    ||| pat_three_dash_eight(s)
    ||| pat_letters_dash_letters(s)
    ||| pat_four_dash_five(s)
    ||| pat_leading_nine_digits(s)
    ||| pat_trailing_fourteen_digits(s)
}

/// `p`, then one or more digits, checked on the text.
fn check_prefix_then_digits(s: &str, n: usize, p: &str, plen: usize) -> (b: bool)
    requires
        n == s@.len(),
        plen == p@.len(),
    ensures
        b == prefix_then_digits(s@, p@),
{
    has_prefix(s, p) && n > plen && digits_in(s, plen, n)
}

/// `p`, then one or more letters-or-digits, checked on the text.
fn check_prefix_then_alnum(s: &str, n: usize, p: &str, plen: usize) -> (b: bool)
    requires
        n == s@.len(),
        plen == p@.len(),
    ensures
        b == prefix_then_alnum(s@, p@),
{
    has_prefix(s, p) && n > plen && alnum_in(s, plen, n)
}

/// `a` letters, a hyphen, `b` letters, a hyphen, seven digits, checked on
/// the text.
fn check_letters_dash(s: &str, n: usize, a: usize, b: usize) -> (r: bool)
    requires
        n == s@.len(),
        2 <= a <= 3,
        2 <= b <= 3,
    ensures
        r == letters_dash_shape(s@, a as int, b as int),
{
    n == a + b + 9 && alpha_in(s, 0, a) && s.get_char(a) == '-' && alpha_in(s, a + 1, a + 1 + b)
        && s.get_char(a + 1 + b) == '-' && digits_in(s, a + b + 2, n)
}

/// Whether `s` matches any of the twelve tracking-number alternatives.
pub fn matches_format(s: &str) -> (b: bool)
    ensures
        b == matches_dhl(s@),
{
    proof {
        reveal_strlit("000");
        reveal_strlit("JJD01");
        reveal_strlit("JJD00");
        reveal_strlit("JVGL");
        reveal_strlit("GM");
        reveal_strlit("LX");
        reveal_strlit("RX");
        reveal_strlit("3S");
        reveal_strlit("JJD");
    }
    let n = s.unicode_len();
    if n == 10 && digits_in(s, 0, n) {
        return true;
    }
    if check_prefix_then_digits(s, n, "000", 3) || check_prefix_then_digits(s, n, "JJD01", 5)
        || check_prefix_then_digits(s, n, "JJD00", 5) || check_prefix_then_digits(
        s,
        n,
        "JVGL",
        4,
    ) {
        return true;
    }
    if check_prefix_then_digits(s, n, "GM", 2) || check_prefix_then_digits(s, n, "LX", 2)
        || check_prefix_then_digits(s, n, "RX", 2) || (n >= 6 && alpha_in(s, 0, 5) && digits_in(
        s,
        5,
        n,
    )) {
        return true;
    }
    if 10 <= n && n <= 39 && digits_in(s, 0, n) {
        return true;
    }
    if check_prefix_then_alnum(s, n, "3S", 2) || check_prefix_then_alnum(s, n, "JVGL", 4)
        || check_prefix_then_alnum(s, n, "JJD", 3) {
        return true;
    }
    if n == 7 && digits_in(s, 0, n) {
        return true;
    }
    if 7 <= n && n <= 9 && is_digit_char(s.get_char(0)) && alpha_in(s, 1, 3) && digits_in(s, 3, n) {
        return true;
    }
    if (n >= 4 && alpha_in(s, 0, 3) && digits_in(s, 3, n)) || (n >= 5 && alpha_in(s, 0, 4)
        && digits_in(s, 4, n)) {
        return true;
    }
    if n == 12 && digits_in(s, 0, 3) && s.get_char(3) == '-' && digits_in(s, 4, n) {
        return true;
    }
    if check_letters_dash(s, n, 2, 2) || check_letters_dash(s, n, 2, 3) || check_letters_dash(
        s,
        n,
        3,
        2,
    ) || check_letters_dash(s, n, 3, 3) {
        return true;
    }
    if n == 10 && digits_in(s, 0, 4) && s.get_char(4) == '-' && digits_in(s, 5, n) {
        return true;
    }
    if n >= 9 && digits_in(s, 0, 9) {
        return true;
    }
    if n >= 14 && digits_in(s, n - 14, n) {
        return true;
    }
    false
}

/// A validated tracking number. The only way to obtain one is a successful
/// `validate`, so a value of this type always holds the trimmed form of a
/// string that matched one of the twelve alternatives.
#[derive(Clone)]
pub struct TrackingNumber {
    tracking_number: String,
}

impl View for TrackingNumber {
    type V = Seq<char>;

    closed spec fn view(&self) -> Seq<char> {
        self.tracking_number@
    }
}

impl TrackingNumber {
    /// Accepts `raw` exactly when the untrimmed input matches one of the
    /// twelve alternatives, and stores the trimmed input; every other string
    /// is an `InvalidTrackingNumber`. The order — match first, trim only for
    /// storage — is deliberate and kept.
    pub fn validate(raw: &str) -> (res: ClientResult<TrackingNumber>)
        ensures
            res is Ok <==> matches_dhl(raw@),
            res matches Ok(t) ==> t@ == trim_spec(raw@),
            res matches Err(e) ==> e == ClientError::InvalidTrackingNumber,
    {
        if !matches_format(raw) {
            return Err(ClientError::InvalidTrackingNumber);
        }
        let stored = trim(raw);
        Ok(TrackingNumber { tracking_number: String::from_str(stored) })
    }

    /// The stored, trimmed tracking number.
    pub fn as_str(&self) -> (s: &str)
        ensures
            s@ == self@,
    {
        self.tracking_number.as_str()
    }
}

} // verus!
