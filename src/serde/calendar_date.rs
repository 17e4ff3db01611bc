//! Calendar dates on the wire: always the ten characters `YYYY-MM-DD`.
use crate::decimal::{
    digits_number, lemma_digits_number_bounds, lemma_digits_of_padded, lemma_padded_of_digits,
    padded_digits, pow10, push_padded_digits,
};
use crate::error::ParseFailure;
use crate::text::{chars_of, is_digit, string_of};
use vstd::prelude::*;

verus! {

/// A civil date (proleptic Gregorian) with a four-digit year.
#[derive(Debug, Clone, Copy, PartialEq, Eq)]
pub struct CalendarDate {
    pub year: i32,
    pub month: u32,
    pub day: u32,
}

pub open spec fn is_leap_year(y: int) -> bool {
    (y % 4 == 0 && y % 100 != 0) || y % 400 == 0
}

pub open spec fn days_in_month(y: int, m: int) -> int {
    if m == 2 {
        if is_leap_year(y) {
            29
        } else {
            28
        }
    } else if m == 4 || m == 6 || m == 9 || m == 11 {
        30
    } else {
        31
    }
}

impl CalendarDate {
    /// A real date whose year has four digits.
    pub open spec fn wf(self) -> bool {
        &&& 0 <= self.year <= 9999
        &&& 1 <= self.month <= 12
        &&& 1 <= self.day <= days_in_month(self.year as int, self.month as int)
    }
}

/// The wire text of a date: `YYYY-MM-DD`.
pub open spec fn date_text(d: CalendarDate) -> Seq<char> {
    padded_digits(d.year as nat, 4) + seq!['-'] + padded_digits(d.month as nat, 2) + seq!['-']
        + padded_digits(d.day as nat, 2)
}

/// Ten characters: four digits, `-`, two digits, `-`, two digits.
pub open spec fn has_date_shape(s: Seq<char>) -> bool {
    &&& s.len() == 10
    &&& s[4] == '-'
    &&& s[7] == '-'
    &&& forall|i: int| 0 <= i < 10 && i != 4 && i != 7 ==> is_digit(#[trigger] s[i])
}

/// The date that a wire text denotes, if it is one.
pub open spec fn date_of_text(s: Seq<char>) -> Option<CalendarDate> {
    if has_date_shape(s) {
        let d = CalendarDate {
            year: digits_number(s.subrange(0, 4)) as i32,
            month: digits_number(s.subrange(5, 7)) as u32,
            day: digits_number(s.subrange(8, 10)) as u32,
        };
        if d.wf() {
            Some(d)
        } else {
            None
        }
    } else {
        None
    }
}

/// The number that the digits `s[from..to]` spell.
fn digits_value(s: &Vec<char>, from: usize, to: usize) -> (r: u32)
    requires
        from <= to <= s@.len(),
        to - from <= 4,
        forall|i: int| from <= i < to ==> is_digit(#[trigger] s@[i]),
    ensures
        r == digits_number(s@.subrange(from as int, to as int)),
        r < 10000,
{
    let mut v: u32 = 0;
    let mut i: usize = from;
    while i < to
        invariant
            from <= i <= to <= s@.len(),
            to - from <= 4,
            forall|k: int| from <= k < to ==> is_digit(#[trigger] s@[k]),
            v == digits_number(s@.subrange(from as int, i as int)),
            v < pow10_u32(i - from),
        decreases to - i,
    {
        let c = s[i];
        let ghost prev = s@.subrange(from as int, i as int);
        assert(s@.subrange(from as int, i + 1).drop_last() =~= prev);
        v = v * 10 + (c as u32 - '0' as u32);
        i = i + 1;
    }
    v
}

spec fn pow10_u32(n: int) -> int {
    if n <= 0 {
        1
    } else if n == 1 {
        10
    } else if n == 2 {
        100
    } else if n == 3 {
        1000
    } else {
        10000
    }
}

/// Whether `c` has the shape `DDDD-DD-DD`.
fn date_shaped(c: &Vec<char>) -> (r: bool)
    ensures
        r == has_date_shape(c@),
{
    if c.len() != 10 || c[4] != '-' || c[7] != '-' {
        return false;
    }
    let mut i: usize = 0;
    while i < 10
        invariant
            c@.len() == 10,
            i <= 10,
            forall|k: int| 0 <= k < i && k != 4 && k != 7 ==> is_digit(#[trigger] c@[k]),
        decreases 10 - i,
    {
        if i != 4 && i != 7 && !('0' <= c[i] && c[i] <= '9') {
            assert(!is_digit(c@[i as int]));
            return false;
        }
        i = i + 1;
    }
    true
}

/// The date that `s` denotes in the strict `YYYY-MM-DD` form.
pub fn parse_date(s: &str) -> (r: Option<CalendarDate>)
    ensures
        r == date_of_text(s@),
        r matches Some(d) ==> d.wf(),
{
    let c = chars_of(s);
    if !date_shaped(&c) {
        return None;
    }
    let year = digits_value(&c, 0, 4);
    let month = digits_value(&c, 5, 7);
    let day = digits_value(&c, 8, 10);
    let d = CalendarDate { year: year as i32, month, day };
    if 1 <= month && month <= 12 && 1 <= day && day <= month_length(year as i32, month) {
        Some(d)
    } else {
        None
    }
}

/// The number of days of a month.
pub fn month_length(year: i32, month: u32) -> (r: u32)
    requires
        0 <= year,
    ensures
        r == days_in_month(year as int, month as int),
{
    if month == 2 {
        if (year % 4 == 0 && year % 100 != 0) || year % 400 == 0 {
            29
        } else {
            28
        }
    } else if month == 4 || month == 6 || month == 9 || month == 11 {
        30
    } else {
        31
    }
}

/// The wire text of a date.
pub fn date_chars(d: &CalendarDate) -> (r: Vec<char>)
    requires
        d.wf(),
    ensures
        r@ == date_text(*d),
{
    let mut out: Vec<char> = Vec::new();
    push_padded_digits(d.year as u128, 4, &mut out);
    out.push('-');
    push_padded_digits(d.month as u128, 2, &mut out);
    out.push('-');
    push_padded_digits(d.day as u128, 2, &mut out);
    assert(out@ =~= date_text(*d));
    out
}

/// Writes a date as `YYYY-MM-DD`.
pub fn serialize(d: &CalendarDate) -> (r: String)
    requires
        d.wf(),
    ensures
        r@ == date_text(*d),
{
    string_of(&date_chars(d))
}

/// Reads a date from its strict `YYYY-MM-DD` form; any other text fails.
pub fn deserialize(s: &str) -> (r: Result<CalendarDate, ParseFailure>)
    ensures
        match r {
            Ok(d) => date_of_text(s@) == Some(d) && d.wf(),
            Err(e) => date_of_text(s@) is None && e.is_date_of(s@),
        },
{
    match parse_date(s) {
        Some(d) => Ok(d),
        None => Err(ParseFailure::Date { text: s.to_owned() }),
    }
}

/// Reads an optional date: absent stays absent, and present text must be a
/// date.
pub fn deserialize_option(s: Option<&str>) -> (r: Result<Option<CalendarDate>, ParseFailure>)
    ensures
        match s {
            None => r == Ok::<Option<CalendarDate>, ParseFailure>(None),
            Some(t) => match r {
                Ok(o) => o is Some && date_of_text(t@) == o,
                Err(e) => date_of_text(t@) is None && e.is_date_of(t@),
            },
        },
{
    match s {
        None => Ok(None),
        Some(t) => match deserialize(t) {
            Ok(d) => Ok(Some(d)),
            Err(e) => Err(e),
        },
    }
}

/// Writes an optional date.
pub fn serialize_option(d: &Option<CalendarDate>) -> (r: Option<String>)
    requires
        d matches Some(x) ==> x.wf(),
    ensures
        match d {
            None => r is None,
            Some(x) => r matches Some(t) && t@ == date_text(*x),
        },
{
    match d {
        None => None,
        Some(x) => Some(serialize(x)),
    }
}

/// Every well-formed `YYYY-MM-DD` text reads as a date whose text is the
/// input itself: serializing what was deserialized gives the input back.
pub proof fn lemma_date_text_round_trip(s: Seq<char>)
    requires
        date_of_text(s) is Some,
    ensures
        date_text(date_of_text(s).unwrap()) == s,
{
    let y = s.subrange(0, 4);
    let m = s.subrange(5, 7);
    let d = s.subrange(8, 10);
    assert forall|i: int| 0 <= i < 4 implies is_digit(#[trigger] y[i]) by {
        assert(y[i] == s[i]);
    }
    assert forall|i: int| 0 <= i < 2 implies is_digit(#[trigger] m[i]) by {
        assert(m[i] == s[i + 5]);
    }
    assert forall|i: int| 0 <= i < 2 implies is_digit(#[trigger] d[i]) by {
        assert(d[i] == s[i + 8]);
    }
    lemma_padded_of_digits(y);
    lemma_padded_of_digits(m);
    lemma_padded_of_digits(d);
    lemma_digits_number_bounds(y);
    lemma_digits_number_bounds(m);
    lemma_digits_number_bounds(d);
    assert(pow10(4) == 10000) by {
        reveal_with_fuel(pow10, 5);
    }
    let dt = date_of_text(s).unwrap();
    assert(dt.year as nat == digits_number(y));
    assert(dt.month as nat == digits_number(m));
    assert(dt.day as nat == digits_number(d));
    assert(date_text(dt) =~= s);
}

/// Every date survives the trip through its text: deserializing what was
/// serialized gives the same date.
pub proof fn lemma_date_round_trip(d: CalendarDate)
    requires
        d.wf(),
    ensures
        date_of_text(date_text(d)) == Some(d),
{
    let t = date_text(d);
    lemma_digits_of_padded(d.year as nat, 4);
    lemma_digits_of_padded(d.month as nat, 2);
    lemma_digits_of_padded(d.day as nat, 2);
    assert(pow10(4) == 10000 && pow10(2) == 100) by {
        reveal_with_fuel(pow10, 5);
    }
    assert(t.subrange(0, 4) =~= padded_digits(d.year as nat, 4));
    assert(t.subrange(5, 7) =~= padded_digits(d.month as nat, 2));
    assert(t.subrange(8, 10) =~= padded_digits(d.day as nat, 2));
    assert forall|i: int| 0 <= i < 10 && i != 4 && i != 7 implies is_digit(#[trigger] t[i]) by {
        if i < 4 {
            assert(t[i] == padded_digits(d.year as nat, 4)[i]);
        } else if i < 7 {
            assert(t[i] == padded_digits(d.month as nat, 2)[i - 5]);
        } else {
            assert(t[i] == padded_digits(d.day as nat, 2)[i - 8]);
        }
    }
}

} // verus!
