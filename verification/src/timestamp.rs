//! Timestamp texts of the form `YYYY-MM-DD HH:MM:SS ±HHMM` and the instants
//! they denote.

use crate::error::Error;
use vstd::prelude::*;
use vstd::string::*;
use vstd::utf8::is_ascii_chars;

verus! {

/// A point in time, normalized to UTC: whole seconds since 1970-01-01T00:00:00Z
/// and the nanoseconds past that second.
#[derive(Clone, Copy, Debug, PartialEq, Eq, Structural, PartialOrd, Ord, Hash)]
pub struct Instant {
    pub secs: i64,
    pub nanos: u32,
}

impl Instant {
    /// Strictly earlier: by seconds first, then by nanoseconds.
    pub open spec fn earlier_than(self, other: Instant) -> bool {
        self.secs < other.secs || (self.secs == other.secs && self.nanos < other.nanos)
    }

    /// Whether `self` lies strictly before `other`.
    pub fn is_before(&self, other: &Instant) -> (before: bool)
        ensures
            before == self.earlier_than(*other),
    {
        self.secs < other.secs || (self.secs == other.secs && self.nanos < other.nanos)
    }
}

/// The length of a timestamp text, in characters.
pub const TEXT_LEN: usize = 25;

/// Which character may stand at position `i` of a timestamp text.
pub open spec fn slot_accepts(i: int, c: char) -> bool {
    if i == 4 || i == 7 {
        c == '-'
    } else if i == 10 || i == 19 {
        c == ' '
    } else if i == 13 || i == 16 {
        c == ':'
    } else if i == 20 {
        c == '+' || c == '-'
    } else {
        '0' <= c <= '9'
    }
}

/// The text has the fixed layout: digits, separators and a sign, each in its
/// place, and nothing else.
pub open spec fn has_shape(text: Seq<char>) -> bool {
    &&& text.len() == TEXT_LEN
    &&& forall|i: int| 0 <= i < TEXT_LEN ==> slot_accepts(i, #[trigger] text[i])
}

/// The value of the two digits at positions `i` and `i + 1`.
pub open spec fn pair_at(text: Seq<char>, i: int) -> int {
    (text[i] as int - '0' as int) * 10 + (text[i + 1] as int - '0' as int)
}

/// The year that the first four digits spell.
pub open spec fn year_at(text: Seq<char>) -> int {
    pair_at(text, 0) * 100 + pair_at(text, 2)
}

/// Leap years of the proleptic Gregorian calendar.
pub open spec fn is_leap_year(year: int) -> bool {
    year % 4 == 0 && (year % 100 != 0 || year % 400 == 0)
}

/// The number of days that `month` has in `year`.
pub open spec fn days_in_month(year: int, month: int) -> int {
    if month == 2 {
        if is_leap_year(year) {
            29
        } else {
            28
        }
    } else if month == 4 || month == 6 || month == 9 || month == 11 {
        30
    } else {
        31
    }
}

/// The month exists, the day exists in that month, the time of day exists
/// (a second of 60 is a leap second), and the offset stays below a day.
pub open spec fn fields_in_range(text: Seq<char>) -> bool {
    &&& 1 <= pair_at(text, 5) <= 12
    &&& 1 <= pair_at(text, 8) <= days_in_month(year_at(text), pair_at(text, 5))
    &&& pair_at(text, 11) <= 23
    &&& pair_at(text, 14) <= 59
    &&& pair_at(text, 17) <= 60
    &&& pair_at(text, 21) <= 23
    &&& pair_at(text, 23) <= 59
}

/// The text matches `YYYY-MM-DD HH:MM:SS ±HHMM` and names a day and a time
/// of day that exist.
pub open spec fn is_well_formed(text: Seq<char>) -> bool {
    has_shape(text) && fields_in_range(text)
}

fn slot_accepts_byte(i: usize, b: u8) -> (ok: bool)
    requires
        b < 128,
    ensures
        ok == slot_accepts(i as int, b as char),
{
    if i == 4 || i == 7 {
        b == 45
    } else if i == 10 || i == 19 {
        b == 32
    } else if i == 13 || i == 16 {
        b == 58
    } else if i == 20 {
        b == 43 || b == 45
    } else {
        48 <= b && b <= 57
    }
}

fn pair_value(text: &str, i: usize) -> (v: u8)
    requires
        has_shape(text@),
        i == 0 || i == 2 || i == 5 || i == 8 || i == 11 || i == 14 || i == 17 || i == 21 || i
            == 23,
    ensures
        v == pair_at(text@, i as int),
{
    assert(is_ascii_chars(text@)) by {
        assert forall|k: int| 0 <= k < text@.len() implies '\0' <= #[trigger] text@[k] <= '\u{7f}' by {
            assert(slot_accepts(k, text@[k]));
        }
    }
    assert(slot_accepts(i as int, text@[i as int]));
    assert(slot_accepts(i + 1, text@[i + 1]));
    let hi: u8 = text.get_ascii(i);
    let lo: u8 = text.get_ascii(i + 1);
    (hi - 48) * 10 + (lo - 48)
}

fn month_length(year: u16, month: u8) -> (days: u8)
    ensures
        days == days_in_month(year as int, month as int),
{
    if month == 2 {
        if year % 4 == 0 && (year % 100 != 0 || year % 400 == 0) {
            29
        } else {
            28
        }
    } else if month == 4 || month == 6 || month == 9 || month == 11 {
        30
    } else {
        31
    }
}

/// Decides whether `text` matches `YYYY-MM-DD HH:MM:SS ±HHMM` and names a
/// day and a time of day that exist.
pub fn well_formed(text: &str) -> (ok: bool)
    ensures
        ok == is_well_formed(text@),
{
    if !text.is_ascii() {
        assert(!has_shape(text@)) by {
            if has_shape(text@) {
                assert forall|k: int| 0 <= k < text@.len() implies '\0' <= #[trigger] text@[k]
                    <= '\u{7f}' by {
                    assert(slot_accepts(k, text@[k]));
                }
            }
        }
        return false;
    }
    if text.unicode_len() != TEXT_LEN {
        return false;
    }
    let mut i: usize = 0;
    while i < TEXT_LEN
        invariant
            i <= TEXT_LEN,
            text@.len() == TEXT_LEN,
            text.is_ascii(),
            forall|k: int| 0 <= k < i ==> slot_accepts(k, #[trigger] text@[k]),
        decreases TEXT_LEN - i,
    {
        let b: u8 = text.get_ascii(i);
        assert('\0' <= text@[i as int] <= '\u{7f}');
        assert(b as char == text@[i as int]);
        if !slot_accepts_byte(i, b) {
            return false;
        }
        i += 1;
    }
    let year: u16 = (pair_value(text, 0) as u16) * 100 + (pair_value(text, 2) as u16);
    let month: u8 = pair_value(text, 5);
    let day: u8 = pair_value(text, 8);
    let hour: u8 = pair_value(text, 11);
    let minute: u8 = pair_value(text, 14);
    let second: u8 = pair_value(text, 17);
    let offset_hour: u8 = pair_value(text, 21);
    let offset_minute: u8 = pair_value(text, 23);
    1 <= month && month <= 12 && 1 <= day && day <= month_length(year, month) && hour <= 23
        && minute <= 59 && second <= 60 && offset_hour <= 23 && offset_minute <= 59
}

/// The error of the calendar library's parser, carried through unread.
#[verifier::external_type_specification]
#[verifier::external_body]
pub struct ExParseError(chrono::ParseError);

/// What the calendar library reads from `text` under the strftime pattern
/// `format`: the seconds since the Unix epoch and the nanoseconds past that
/// second of the instant the text denotes, or `None` where it rejects the
/// text. The reading depends on the two texts alone.
pub uninterp spec fn calendar_reading(text: Seq<char>, format: Seq<char>) -> Option<(i64, u32)>;

/// Calls `chrono::DateTime::parse_from_str` and hands back the parsed
/// moment's `timestamp()` and `timestamp_subsec_nanos()`. Nothing is proved
/// of it: the contract only names the outcome [`calendar_reading`], and says
/// that an error comes back exactly where that reading is `None`.
#[verifier::external_body]
fn read_calendar(text: &str, format: &str) -> (reading: Result<(i64, u32), chrono::ParseError>)
    ensures
        reading is Ok <==> calendar_reading(text@, format@) is Some,
        reading is Ok ==> calendar_reading(text@, format@) == Some(reading->Ok_0),
{
    match chrono::DateTime::parse_from_str(text, format) {
        Ok(moment) => Ok((moment.timestamp(), moment.timestamp_subsec_nanos())),
        Err(e) => Err(e),
    }
}

/// The strftime pattern that corresponds to `YYYY-MM-DD HH:MM:SS ±HHMM`.
pub open spec fn pattern() -> Seq<char> {
    "%Y-%m-%d %H:%M:%S %z"@
}

/// What a text and the calendar's reading of it yield together: the instant
/// that was read where the text is well formed and the calendar accepted it,
/// a format error otherwise.
pub open spec fn accepted(text: Seq<char>, reading: Option<(i64, u32)>) -> Result<Instant, Error> {
    if !is_well_formed(text) {
        Err(Error::FormatError)
    } else {
        match reading {
            Some(r) => Ok(Instant { secs: r.0, nanos: r.1 }),
            None => Err(Error::FormatError),
        }
    }
}

/// The result of parsing `text`.
pub open spec fn parsed(text: Seq<char>) -> Result<Instant, Error> {
    accepted(text, calendar_reading(text, pattern()))
}

/// The result of parsing a field that may be absent: absence is kept apart
/// from a text that is present and malformed.
pub open spec fn parsed_optional(text: Option<Seq<char>>) -> Result<Option<Instant>, Error> {
    match text {
        None => Ok(None),
        Some(t) => match parsed(t) {
            Ok(at) => Ok(Some(at)),
            Err(e) => Err(e),
        },
    }
}

/// The view of an optional text.
pub open spec fn text_of(field: Option<String>) -> Option<Seq<char>> {
    match field {
        None => None,
        Some(s) => Some(s@),
    }
}

/// Joins the layout check on `text` with the calendar's `reading` of it.
pub fn accept(text: &str, reading: Option<(i64, u32)>) -> (r: Result<Instant, Error>)
    ensures
        r == accepted(text@, reading),
{
    if !well_formed(text) {
        return Err(Error::FormatError);
    }
    match reading {
        Some(r) => Ok(Instant { secs: r.0, nanos: r.1 }),
        None => Err(Error::FormatError),
    }
}

/// Parses a timestamp text into the instant it denotes. A text that does not
/// match `YYYY-MM-DD HH:MM:SS ±HHMM`, or names a moment no calendar holds,
/// is a format error.
pub fn parse(text: &str) -> (r: Result<Instant, Error>)
    ensures
        r == parsed(text@),
        !is_well_formed(text@) ==> r == Err::<Instant, Error>(Error::FormatError),
        r is Err ==> r == Err::<Instant, Error>(Error::FormatError),
{
    let reading = match read_calendar(text, "%Y-%m-%d %H:%M:%S %z") {
        Ok(r) => Some(r),
        Err(_) => None,
    };
    accept(text, reading)
}

/// Parses a timestamp field that the caller may have left out. Absence
/// yields `Ok(None)`; a text that is present and malformed is a format error
/// and never silently dropped.
pub fn parse_optional(text: &Option<String>) -> (r: Result<Option<Instant>, Error>)
    ensures
        r == parsed_optional(text_of(*text)),
        text is None ==> r == Ok::<Option<Instant>, Error>(None),
{
    match text {
        None => Ok(None),
        Some(t) => match parse(t.as_str()) {
            Ok(at) => Ok(Some(at)),
            Err(e) => Err(e),
        },
    }
}

} // verus!
