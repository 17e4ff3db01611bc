//! The lenient amount parser: loosely formatted monetary text to an exact
//! [`Decimal`].
//!
//! Text is trimmed and its sign read (a leading `-`, or accounting
//! parentheses); everything but digits, `.` and `,` is stripped; the decimal
//! separator is judged on what is left; the thousands separators are dropped;
//! and the canonical numeric text that results is handed to `rust_decimal`.
use crate::decimal::{digits_number, Decimal, MANTISSA_BOUND, MAX_SCALE};
use crate::error::ParseFailure;
use crate::text::{chars_of, is_digit, is_white, is_whitespace};
use std::str::FromStr;
use vstd::prelude::*;

verus! {

/// A numeric value as it arrives on the wire. A floating-point number is
/// converted by the codec that reads it and never reaches this type.
#[derive(Debug, Clone, PartialEq, Eq)]
pub enum NumericToken {
    Text(String),
    Signed(i64),
    Unsigned(u64),
    Null,
}

// ---------------------------------------------------------------- trimming

/// The first index at or after `i` that does not hold whitespace.
pub open spec fn skip_white(s: Seq<char>, i: int) -> int
    decreases s.len() - i,
{
    if 0 <= i < s.len() && is_white(s[i]) {
        skip_white(s, i + 1)
    } else {
        i
    }
}

/// The end of `s[lo..j]` once trailing whitespace is dropped.
pub open spec fn back_white(s: Seq<char>, lo: int, j: int) -> int
    decreases j - lo,
{
    if lo < j && is_white(s[j - 1]) {
        back_white(s, lo, j - 1)
    } else {
        j
    }
}

/// `s` without leading and trailing whitespace.
pub open spec fn trimmed(s: Seq<char>) -> Seq<char> {
    let lo = skip_white(s, 0);
    s.subrange(lo, back_white(s, lo, s.len() as int))
}

// ---------------------------------------------------------------- sign

/// Accounting notation for a negative amount: `(` ... `)`.
pub open spec fn is_wrapped(t: Seq<char>) -> bool {
    t.len() >= 2 && t[0] == '(' && t.last() == ')'
}

pub open spec fn is_negative_text(t: Seq<char>) -> bool {
    is_wrapped(t) || (t.len() > 0 && t[0] == '-')
}

/// The text with accounting parentheses removed.
pub open spec fn amount_body(t: Seq<char>) -> Seq<char> {
    if is_wrapped(t) {
        t.subrange(1, t.len() - 1)
    } else {
        t
    }
}

// ---------------------------------------------------------------- separators

/// The last index below `j` that holds `c`, or -1.
pub open spec fn last_at(s: Seq<char>, c: char, j: int) -> int
    decreases j,
{
    if j <= 0 {
        -1
    } else if s[j - 1] == c {
        j - 1
    } else {
        last_at(s, c, j - 1)
    }
}

pub open spec fn last_index(s: Seq<char>, c: char) -> int {
    last_at(s, c, s.len() as int)
}

/// How often `c` occurs in `s[..i]`.
pub open spec fn count_upto(s: Seq<char>, c: char, i: int) -> nat
    decreases i,
{
    if i <= 0 {
        0
    } else {
        count_upto(s, c, i - 1) + if s[i - 1] == c {
            1nat
        } else {
            0nat
        }
    }
}

pub open spec fn occurrences(s: Seq<char>, c: char) -> nat {
    count_upto(s, c, s.len() as int)
}

/// Where only `c` separates: it is the decimal separator when it occurs
/// once and stands among the last three characters of the stripped text;
/// otherwise every `c` groups thousands.
pub open spec fn lone_is_decimal(b: Seq<char>, c: char) -> bool {
    occurrences(b, c) == 1 && last_index(b, c) + 3 >= b.len()
}

/// The character that marks the fraction in `b`, if any. Where both `.` and
/// `,` occur, the one that occurs last.
pub open spec fn decimal_separator(b: Seq<char>) -> Option<char> {
    let d = last_index(b, '.');
    let c = last_index(b, ',');
    if d >= 0 && c >= 0 {
        if d > c {
            Some('.')
        } else {
            Some(',')
        }
    } else if c >= 0 {
        if lone_is_decimal(b, ',') {
            Some(',')
        } else {
            None
        }
    } else if d >= 0 {
        if lone_is_decimal(b, '.') {
            Some('.')
        } else {
            None
        }
    } else {
        None
    }
}

/// What one character contributes: a digit itself, the decimal separator a
/// `.`, anything else nothing.
pub open spec fn kept_char(c: char, sep: Option<char>) -> Seq<char> {
    if is_digit(c) {
        seq![c]
    } else if sep == Some(c) {
        seq!['.']
    } else {
        Seq::empty()
    }
}

pub open spec fn kept_upto(b: Seq<char>, sep: Option<char>, i: int) -> Seq<char>
    decreases i,
{
    if i <= 0 {
        Seq::empty()
    } else {
        kept_upto(b, sep, i - 1) + kept_char(b[i - 1], sep)
    }
}

pub open spec fn kept(b: Seq<char>, sep: Option<char>) -> Seq<char> {
    kept_upto(b, sep, b.len() as int)
}

/// A digit or one of the two separators.
pub open spec fn is_number_char(c: char) -> bool {
    is_digit(c) || c == '.' || c == ','
}

/// The digits and separators of `b[..i]`, in order.
pub open spec fn number_chars_upto(b: Seq<char>, i: int) -> Seq<char>
    decreases i,
{
    if i <= 0 {
        Seq::empty()
    } else {
        number_chars_upto(b, i - 1) + if is_number_char(b[i - 1]) {
            seq![b[i - 1]]
        } else {
            Seq::empty()
        }
    }
}

/// `b` with everything but digits, `.` and `,` removed: currency symbols,
/// spaces and any other character.
pub open spec fn number_chars(b: Seq<char>) -> Seq<char> {
    number_chars_upto(b, b.len() as int)
}

/// The canonical numeric text of an amount: an optional `-`, then digits
/// and `.` only, with a `0` before a leading `.`. The decimal separator is
/// judged on the digits and separators alone.
pub open spec fn canonical_text(s: Seq<char>) -> Seq<char> {
    let t = trimmed(s);
    let n = number_chars(amount_body(t));
    let k = kept(n, decimal_separator(n));
    let signed = if is_negative_text(t) {
        seq!['-'] + k
    } else {
        k
    };
    if signed.len() > 0 && signed[0] == '.' {
        seq!['0'] + signed
    } else {
        signed
    }
}

// ---------------------------------------------------------------- numbers

/// `c` without a leading `-`.
pub open spec fn unsigned_part(c: Seq<char>) -> Seq<char> {
    if c.len() > 0 && c[0] == '-' {
        c.drop_first()
    } else {
        c
    }
}

/// An optional `-` followed by digits and points only.
pub open spec fn digits_and_points(c: Seq<char>) -> bool {
    let u = unsigned_part(c);
    forall|i: int| 0 <= i < u.len() ==> is_digit(#[trigger] u[i]) || u[i] == '.'
}

/// The digit characters of `s`, in order.
pub open spec fn digits_in(s: Seq<char>) -> Seq<char>
    decreases s.len(),
{
    if s.len() == 0 {
        Seq::empty()
    } else {
        digits_in(s.drop_last()) + if is_digit(s.last()) {
            seq![s.last()]
        } else {
            Seq::empty()
        }
    }
}

pub open spec fn number_digits(c: Seq<char>) -> Seq<char> {
    digits_in(unsigned_part(c))
}

/// The number of digits after the point.
pub open spec fn fraction_len(c: Seq<char>) -> int {
    let u = unsigned_part(c);
    let p = last_index(u, '.');
    if p < 0 {
        0
    } else {
        u.len() - 1 - p
    }
}

/// `-`? digits (`.` digits)? with at least one digit, whose magnitude and
/// scale fit a decimal.
pub open spec fn exactly_representable(c: Seq<char>) -> bool {
    &&& digits_and_points(c)
    &&& occurrences(unsigned_part(c), '.') <= 1
    &&& number_digits(c).len() > 0
    &&& digits_number(number_digits(c)) < MANTISSA_BOUND
    &&& fraction_len(c) <= MAX_SCALE
}

/// The decimal that a plain numeric text spells, scale included.
pub open spec fn plain_number_value(c: Seq<char>) -> Decimal {
    let m = digits_number(number_digits(c));
    Decimal {
        mantissa: (if c.len() > 0 && c[0] == '-' {
            -m
        } else {
            m
        }) as i128,
        scale: fraction_len(c) as u32,
    }
}

/// Text that no decimal parser accepts: no digit, or two points.
pub open spec fn never_a_number(c: Seq<char>) -> bool {
    digits_and_points(c) && (number_digits(c).len() == 0 || occurrences(
        unsigned_part(c),
        '.',
    ) >= 2)
}

/// What `rust_decimal` makes of a text: `Decimal::from_str`.
pub uninterp spec fn decimal_from_str(s: Seq<char>) -> Option<Decimal>;

/// Relies on `<rust_decimal::Decimal as FromStr>::from_str`: a plain numeric
/// text that fits is read exactly, mantissa and scale; text without a digit
/// or with two points is refused; what it returns is within the bounds of a
/// decimal.
#[verifier::external_body]
fn parse_decimal(text: &Vec<char>) -> (r: Option<Decimal>)
    ensures
        r == decimal_from_str(text@),
        exactly_representable(text@) ==> r == Some(plain_number_value(text@)),
        never_a_number(text@) ==> r is None,
        r matches Some(d) ==> d.wf(),
{
    let s: String = text.iter().collect();
    match rust_decimal::Decimal::from_str(&s) {
        Ok(d) => Some(Decimal { mantissa: d.mantissa(), scale: d.scale() }),
        Err(_) => None,
    }
}

/// What the normalizer makes of a text.
pub open spec fn normalized(s: Seq<char>) -> Option<Decimal> {
    decimal_from_str(canonical_text(s))
}

// ---------------------------------------------------------------- steps

/// `s` without leading and trailing whitespace.
pub fn trim_chars(s: &Vec<char>) -> (r: Vec<char>)
    ensures
        r@ == trimmed(s@),
{
    let n = s.len();
    let mut lo: usize = 0;
    while lo < n && is_whitespace(s[lo])
        invariant
            n == s@.len(),
            lo <= n,
            skip_white(s@, lo as int) == skip_white(s@, 0),
        decreases n - lo,
    {
        lo = lo + 1;
    }
    let mut hi: usize = n;
    while hi > lo && is_whitespace(s[hi - 1])
        invariant
            n == s@.len(),
            lo <= hi <= n,
            lo == skip_white(s@, 0),
            back_white(s@, lo as int, hi as int) == back_white(s@, lo as int, n as int),
        decreases hi,
    {
        hi = hi - 1;
    }
    slice_chars(s, lo, hi)
}

/// The characters `s[from..to]`.
pub fn slice_chars(s: &Vec<char>, from: usize, to: usize) -> (r: Vec<char>)
    requires
        from <= to <= s@.len(),
    ensures
        r@ == s@.subrange(from as int, to as int),
{
    let mut out: Vec<char> = Vec::new();
    let mut i: usize = from;
    while i < to
        invariant
            from <= i <= to <= s@.len(),
            out@ == s@.subrange(from as int, i as int),
        decreases to - i,
    {
        out.push(s[i]);
        i = i + 1;
        assert(out@ =~= s@.subrange(from as int, i as int));
    }
    out
}

/// The last index of `c` in `s`, as `rfind` gives it.
pub fn last_index_of(s: &Vec<char>, c: char) -> (r: Option<usize>)
    ensures
        match r {
            Some(p) => last_index(s@, c) == p && p < s@.len(),
            None => last_index(s@, c) == -1,
        },
{
    let mut j: usize = s.len();
    while j > 0
        invariant
            j <= s@.len(),
            last_at(s@, c, j as int) == last_index(s@, c),
        decreases j,
    {
        if s[j - 1] == c {
            return Some(j - 1);
        }
        j = j - 1;
    }
    None
}

/// How often `c` occurs in `s`.
pub fn count_of(s: &Vec<char>, c: char) -> (r: usize)
    ensures
        r == occurrences(s@, c),
{
    let mut n: usize = 0;
    let mut i: usize = 0;
    while i < s.len()
        invariant
            i <= s@.len(),
            n == count_upto(s@, c, i as int),
            n <= i,
        decreases s@.len() - i,
    {
        if s[i] == c {
            n = n + 1;
        }
        i = i + 1;
    }
    n
}

/// The digits, `.` and `,` of `b`, in order.
pub fn strip_to_number_chars(b: &Vec<char>) -> (r: Vec<char>)
    ensures
        r@ == number_chars(b@),
{
    let mut out: Vec<char> = Vec::new();
    let mut i: usize = 0;
    while i < b.len()
        invariant
            i <= b@.len(),
            out@ == number_chars_upto(b@, i as int),
        decreases b@.len() - i,
    {
        let ch = b[i];
        if ('0' <= ch && ch <= '9') || ch == '.' || ch == ',' {
            out.push(ch);
        }
        i = i + 1;
        assert(out@ =~= number_chars_upto(b@, i as int));
    }
    out
}

/// The decimal separator of the digits and separators of an amount.
pub fn find_decimal_separator(b: &Vec<char>) -> (r: Option<char>)
    ensures
        r == decimal_separator(b@),
{
    let d = last_index_of(b, '.');
    let c = last_index_of(b, ',');
    match (d, c) {
        (Some(dp), Some(cp)) => {
            if dp > cp {
                Some('.')
            } else {
                Some(',')
            }
        },
        (None, Some(cp)) => {
            if count_of(b, ',') == 1 && b.len() - cp <= 3 {
                Some(',')
            } else {
                None
            }
        },
        (Some(dp), None) => {
            if count_of(b, '.') == 1 && b.len() - dp <= 3 {
                Some('.')
            } else {
                None
            }
        },
        (None, None) => None,
    }
}

/// The digits of `b` and its decimal separator, written as `.`.
pub fn keep_number_chars(b: &Vec<char>, sep: Option<char>) -> (r: Vec<char>)
    ensures
        r@ == kept(b@, sep),
{
    let mut out: Vec<char> = Vec::new();
    let mut i: usize = 0;
    while i < b.len()
        invariant
            i <= b@.len(),
            out@ == kept_upto(b@, sep, i as int),
        decreases b@.len() - i,
    {
        let ch = b[i];
        if '0' <= ch && ch <= '9' {
            out.push(ch);
        } else if sep == Some(ch) {
            out.push('.');
        }
        i = i + 1;
        assert(out@ =~= kept_upto(b@, sep, i as int));
    }
    out
}

/// The canonical numeric text of an amount (see [`canonical_text`]):
/// `"($1,234.56)"` gives `-1234.56`, `"1.234,56"` gives `1234.56`, `",50"`
/// gives `0.50`.
pub fn canonical_amount_text(v: &str) -> (r: Vec<char>)
    ensures
        r@ == canonical_text(v@),
{
    let s = chars_of(v);
    let t = trim_chars(&s);
    let n = t.len();
    let wrapped = n >= 2 && t[0] == '(' && t[n - 1] == ')';
    let negative = wrapped || (n > 0 && t[0] == '-');
    let b = if wrapped {
        slice_chars(&t, 1, n - 1)
    } else {
        t
    };
    let digits = strip_to_number_chars(&b);
    let sep = find_decimal_separator(&digits);
    let mut out = keep_number_chars(&digits, sep);
    let ghost k = out@;
    if negative {
        out.insert(0, '-');
    }
    assert(out@ =~= if negative { seq!['-'] + k } else { k });
    if out.len() > 0 && out[0] == '.' {
        out.insert(0, '0');
    }
    assert(out@ =~= canonical_text(v@));
    out
}

/// Normalizes a textual amount. The result is what `rust_decimal` reads from
/// the canonical text; where that text spells a number that fits, it is that
/// number exactly, and where it has no digit or two points, the text is
/// refused.
pub fn normalize_text(v: &str) -> (r: Result<Decimal, ParseFailure>)
    ensures
        match r {
            Ok(d) => normalized(v@) == Some(d) && d.wf(),
            Err(e) => normalized(v@) is None && e.is_amount_of(v@),
        },
        exactly_representable(canonical_text(v@)) ==> r == Ok::<Decimal, ParseFailure>(
            plain_number_value(canonical_text(v@)),
        ),
        never_a_number(canonical_text(v@)) ==> r is Err,
{
    let text = canonical_amount_text(v);
    match parse_decimal(&text) {
        Some(d) => Ok(d),
        None => Err(ParseFailure::Amount { text: v.to_owned() }),
    }
}

/// Normalizes a raw numeric token: an integer is taken as it is, null is
/// zero, and text goes through [`normalize_text`].
pub fn deserialize_flexible_decimal(token: &NumericToken) -> (r: Result<Decimal, ParseFailure>)
    ensures
        match token {
            NumericToken::Text(s) => match r {
                Ok(d) => normalized(s@) == Some(d) && d.wf(),
                Err(e) => normalized(s@) is None && e.is_amount_of(s@),
            },
            NumericToken::Signed(i) => r == Ok::<Decimal, ParseFailure>(
                Decimal { mantissa: *i as i128, scale: 0 },
            ),
            NumericToken::Unsigned(u) => r == Ok::<Decimal, ParseFailure>(
                Decimal { mantissa: *u as i128, scale: 0 },
            ),
            NumericToken::Null => r == Ok::<Decimal, ParseFailure>(
                Decimal { mantissa: 0, scale: 0 },
            ),
        },
        match token {
            NumericToken::Text(s) => {
                &&& exactly_representable(canonical_text(s@)) ==> r == Ok::<Decimal, ParseFailure>(
                    plain_number_value(canonical_text(s@)),
                )
                &&& never_a_number(canonical_text(s@)) ==> r is Err
            },
            _ => true,
        },
{
    match token {
        NumericToken::Text(s) => normalize_text(s.as_str()),
        NumericToken::Signed(i) => Ok(Decimal::from_i64(*i)),
        NumericToken::Unsigned(u) => Ok(Decimal::from_u64(*u)),
        NumericToken::Null => Ok(Decimal::zero()),
    }
}

} // verus!
