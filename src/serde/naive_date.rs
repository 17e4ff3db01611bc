//! Timestamps on the wire: RFC 3339, or a bare `YYYY-MM-DD` date read as
//! midnight UTC.
use crate::decimal::digits_number;
use crate::error::ParseFailure;
use crate::serde::calendar_date::{
    date_of_text, days_in_month, has_date_shape, is_leap_year, month_length, parse_date,
    CalendarDate,
};
use crate::text::is_digit;
use vstd::prelude::*;
use vstd::utf8::is_ascii_chars;

verus! {

/// A point in time: seconds and nanoseconds since 1970-01-01T00:00:00Z. A
/// leap second carries its extra second in `nanos`, as chrono does.
#[derive(Debug, Clone, Copy, PartialEq, Eq)]
pub struct Instant {
    pub secs: i64,
    pub nanos: u32,
}

/// The number of days in the years `0 ..= y - 1` of the proleptic
/// Gregorian calendar.
pub open spec fn days_before_year(y: int) -> int
    decreases y,
{
    if y <= 0 {
        0
    } else {
        days_before_year(y - 1) + if is_leap_year(y - 1) {
            366int
        } else {
            365int
        }
    }
}

/// The number of days in the months before month `m` of year `y`.
pub open spec fn days_before_month(y: int, m: int) -> int
    decreases m,
{
    if m <= 1 {
        0
    } else {
        days_before_month(y, m - 1) + days_in_month(y, m - 1)
    }
}

/// Days from 1970-01-01 to the given civil date (negative before it).
pub open spec fn days_from_civil(y: int, m: int, d: int) -> int {
    days_before_year(y) + days_before_month(y, m) + d - 1 - days_before_year(1970)
}

/// Midnight UTC at the start of a date.
pub open spec fn midnight(d: CalendarDate) -> Instant {
    Instant {
        secs: (days_from_civil(d.year as int, d.month as int, d.day as int) * 86400) as i64,
        nanos: 0,
    }
}

/// The text `YYYY-MM-DDTHH:MM:SSZ` with a valid date and time of day.
pub open spec fn is_zulu_text(s: Seq<char>) -> bool {
    &&& s.len() == 20
    &&& date_of_text(s.subrange(0, 10)) is Some
    &&& s[10] == 'T'
    &&& s[13] == ':'
    &&& s[16] == ':'
    &&& s[19] == 'Z'
    &&& forall|i: int|
        11 <= i < 19 && i != 13 && i != 16 ==> is_digit(#[trigger] s[i])
    &&& digits_number(s.subrange(11, 13)) < 24
    &&& digits_number(s.subrange(14, 16)) < 60
    &&& digits_number(s.subrange(17, 19)) < 60
}

/// The instant that a `YYYY-MM-DDTHH:MM:SSZ` text names.
pub open spec fn zulu_instant(s: Seq<char>) -> Instant {
    let d = date_of_text(s.subrange(0, 10)).unwrap();
    Instant {
        secs: (midnight(d).secs + digits_number(s.subrange(11, 13)) * 3600 + digits_number(
            s.subrange(14, 16),
        ) * 60 + digits_number(s.subrange(17, 19))) as i64,
        nanos: 0,
    }
}

/// What chrono reads from an RFC 3339 text, as an instant in UTC.
pub uninterp spec fn rfc3339_instant(s: Seq<char>) -> Option<Instant>;

/// Relies on `chrono::DateTime::parse_from_rfc3339` followed by
/// `timestamp` and `timestamp_subsec_nanos`: an ASCII text shorter than 19
/// characters is refused (it checks the length first), and a
/// `YYYY-MM-DDTHH:MM:SSZ` text with a valid date and time names that instant.
#[verifier::external_body]
fn parse_rfc3339(s: &str) -> (r: Option<Instant>)
    ensures
        r == rfc3339_instant(s@),
        is_ascii_chars(s@) && s@.len() < 19 ==> r is None,
        is_zulu_text(s@) ==> r == Some(zulu_instant(s@)),
{
    match chrono::DateTime::parse_from_rfc3339(s) {
        Ok(dt) => Some(Instant { secs: dt.timestamp(), nanos: dt.timestamp_subsec_nanos() }),
        Err(_) => None,
    }
}

/// The RFC 3339 text that chrono writes for an instant in UTC.
pub uninterp spec fn rfc3339_text(secs: i64, nanos: u32) -> Option<Seq<char>>;

/// Relies on `chrono::DateTime::from_timestamp` and `DateTime::<Utc>::to_rfc3339`:
/// the text depends on the instant alone, and there is none for an instant
/// outside chrono's range.
#[verifier::external_body]
fn format_rfc3339(secs: i64, nanos: u32) -> (r: Option<String>)
    ensures
        match r {
            Some(t) => rfc3339_text(secs, nanos) == Some(t@),
            None => rfc3339_text(secs, nanos) is None,
        },
{
    chrono::DateTime::from_timestamp(secs, nanos).map(|dt| dt.to_rfc3339())
}

/// The number of days in the years before `y`.
fn year_start(y: i32) -> (r: i64)
    requires
        0 <= y <= 9999,
    ensures
        r == days_before_year(y as int),
        0 <= r <= 366 * y,
{
    let mut total: i64 = 0;
    let mut i: i32 = 0;
    while i < y
        invariant
            0 <= i <= y <= 9999,
            total == days_before_year(i as int),
            0 <= total <= 366 * i,
        decreases y - i,
    {
        let leap = (i % 4 == 0 && i % 100 != 0) || i % 400 == 0;
        total = total + if leap {
            366
        } else {
            365
        };
        i = i + 1;
    }
    total
}

/// The number of days in the months of year `y` before month `m`.
fn month_start(y: i32, m: u32) -> (r: i64)
    requires
        0 <= y,
        1 <= m <= 12,
    ensures
        r == days_before_month(y as int, m as int),
        0 <= r <= 31 * (m - 1),
{
    let mut total: i64 = 0;
    let mut i: u32 = 1;
    while i < m
        invariant
            1 <= i <= m <= 12,
            0 <= y,
            total == days_before_month(y as int, i as int),
            0 <= total <= 31 * (i - 1),
        decreases m - i,
    {
        total = total + month_length(y, i) as i64;
        i = i + 1;
    }
    total
}

/// Midnight UTC at the start of a date, in seconds since the epoch.
pub fn midnight_secs(d: &CalendarDate) -> (r: i64)
    requires
        d.wf(),
    ensures
        r == midnight(*d).secs,
{
    let days: i64 = year_start(d.year) - year_start(1970) + month_start(d.year, d.month)
        + d.day as i64 - 1;
    assert(days == days_from_civil(d.year as int, d.month as int, d.day as int));
    days * 86400
}

/// Writes an instant as RFC 3339 with a UTC offset; `None` for an instant
/// outside the range that chrono can write.
pub fn serialize(date: &Instant) -> (r: Option<String>)
    ensures
        match r {
            Some(t) => rfc3339_text(date.secs, date.nanos) == Some(t@),
            None => rfc3339_text(date.secs, date.nanos) is None,
        },
{
    format_rfc3339(date.secs, date.nanos)
}

/// Reads an instant: RFC 3339 first, then a bare `YYYY-MM-DD` as midnight
/// UTC; anything else fails.
pub fn deserialize(s: &str) -> (r: Result<Instant, ParseFailure>)
    ensures
        match rfc3339_instant(s@) {
            Some(t) => r == Ok::<Instant, ParseFailure>(t),
            None => match date_of_text(s@) {
                Some(d) => r == Ok::<Instant, ParseFailure>(midnight(d)),
                None => r matches Err(e) && e.is_timestamp_of(s@),
            },
        },
        is_zulu_text(s@) ==> r == Ok::<Instant, ParseFailure>(zulu_instant(s@)),
        date_of_text(s@) matches Some(d) ==> r == Ok::<Instant, ParseFailure>(midnight(d)),
{
    if let Some(t) = parse_rfc3339(s) {
        return Ok(t);
    }
    proof {
        if date_of_text(s@) is Some {
            assert(has_date_shape(s@));
            assert forall|i: int| 0 <= i < s@.len() implies '\0' <= #[trigger] s@[i] <= '\u{7f}' by {
                if i != 4 && i != 7 {
                    assert(is_digit(s@[i]));
                }
            }
        }
    }
    match parse_date(s) {
        Some(d) => Ok(Instant { secs: midnight_secs(&d), nanos: 0 }),
        None => Err(ParseFailure::Timestamp { text: s.to_owned() }),
    }
}

/// The time that turns a date text into midnight UTC in RFC 3339.
pub open spec fn midnight_suffix() -> Seq<char> {
    seq!['T', '0', '0', ':', '0', '0', ':', '0', '0', 'Z']
}

/// A bare date and the same date at `T00:00:00Z` name the same instant: the
/// fallback for `YYYY-MM-DD` is midnight UTC.
pub proof fn lemma_date_only_is_midnight(s: Seq<char>)
    requires
        date_of_text(s) is Some,
    ensures
        is_zulu_text(s + midnight_suffix()),
        zulu_instant(s + midnight_suffix()) == midnight(date_of_text(s).unwrap()),
{
    let z = s + midnight_suffix();
    assert(z.subrange(0, 10) =~= s);
    let zz = seq!['0', '0'];
    assert(z.subrange(11, 13) =~= zz);
    assert(z.subrange(14, 16) =~= zz);
    assert(z.subrange(17, 19) =~= zz);
    assert(zz.drop_last() =~= seq!['0']);
    assert(seq!['0'].drop_last() =~= Seq::<char>::empty());
    assert(digits_number(seq!['0']) == 0) by {
        assert(digits_number(Seq::<char>::empty()) == 0);
        assert(seq!['0'].last() == '0');
    }
    assert(digits_number(zz) == 0) by {
        assert(zz.last() == '0');
    }
    assert forall|i: int| 11 <= i < 19 && i != 13 && i != 16 implies is_digit(#[trigger] z[i]) by {
        assert(z[i] == midnight_suffix()[i - 10]);
    }
}

} // verus!
