//! Laws of the amount normalizer: which spellings of an amount normalize
//! alike.
use crate::decimal::{
    digits_number, lemma_digits_number_bounds, lemma_digits_of_padded, lemma_mantissa_digits, lemma_pow10_positive, num_digits,
    padded_digits, pow10, Decimal, MANTISSA_BOUND,
};
use crate::serde::flexible_decimal::{
    amount_body, back_white, canonical_text, count_upto, decimal_separator, digits_and_points,
    digits_in, exactly_representable, fraction_len, is_negative_text, is_number_char, is_wrapped,
    kept, kept_char, kept_upto, last_at, last_index, normalized, number_chars, number_chars_upto,
    number_digits, occurrences, plain_number_value, skip_white, trimmed, unsigned_part,
};
use crate::text::{digit_value, is_digit, is_white};
use vstd::prelude::*;

verus! {

/// Digits, `.` and `,` only: the body of a positive amount.
pub open spec fn is_numeric_body(b: Seq<char>) -> bool {
    forall|i: int| 0 <= i < b.len() ==> is_digit(#[trigger] b[i]) || b[i] == '.' || b[i] == ','
}

/// The currency symbols that amounts carry.
pub open spec fn is_currency_symbol(c: char) -> bool {
    c == '$' || c == '€' || c == '£'
}

proof fn lemma_last_at_bounds(s: Seq<char>, c: char, j: int)
    requires
        0 <= j <= s.len(),
    ensures
        -1 <= last_at(s, c, j) < j,
        last_at(s, c, j) >= 0 ==> s[last_at(s, c, j)] == c,
        last_at(s, c, j) == -1 <==> count_upto(s, c, j) == 0,
    decreases j,
{
    if j > 0 {
        lemma_last_at_bounds(s, c, j - 1);
    }
}

proof fn lemma_append(b: Seq<char>, t: Seq<char>, c: char, sep: Option<char>, j: int)
    requires
        0 <= j <= b.len(),
    ensures
        last_at(b + t, c, j) == last_at(b, c, j),
        count_upto(b + t, c, j) == count_upto(b, c, j),
        kept_upto(b + t, sep, j) == kept_upto(b, sep, j),
    decreases j,
{
    if j > 0 {
        lemma_append(b, t, c, sep, j - 1);
        assert((b + t)[j - 1] == b[j - 1]);
    }
}

/// What survives stripping in a concatenation: what survives of each part.
proof fn lemma_number_chars_concat(a: Seq<char>, b: Seq<char>)
    ensures
        number_chars(a + b) == number_chars(a) + number_chars(b),
    decreases b.len(),
{
    lemma_number_chars_prefix(a, b, a.len() as int);
    lemma_number_chars_suffix(a, b, b.len() as int);
}

proof fn lemma_number_chars_prefix(a: Seq<char>, b: Seq<char>, j: int)
    requires
        0 <= j <= a.len(),
    ensures
        number_chars_upto(a + b, j) == number_chars_upto(a, j),
    decreases j,
{
    if j > 0 {
        lemma_number_chars_prefix(a, b, j - 1);
        assert((a + b)[j - 1] == a[j - 1]);
    }
}

proof fn lemma_number_chars_suffix(a: Seq<char>, b: Seq<char>, j: int)
    requires
        0 <= j <= b.len(),
    ensures
        number_chars_upto(a + b, a.len() + j) == number_chars(a) + number_chars_upto(b, j),
    decreases j,
{
    if j > 0 {
        lemma_number_chars_suffix(a, b, j - 1);
        assert((a + b)[a.len() + j - 1] == b[j - 1]);
        assert(number_chars_upto(a + b, a.len() + j) =~= number_chars(a) + number_chars_upto(
            b,
            j,
        ));
    } else {
        lemma_number_chars_prefix(a, b, a.len() as int);
        assert(number_chars_upto(b, 0) == Seq::<char>::empty());
        assert(number_chars_upto(a + b, a.len() + j) =~= number_chars(a) + number_chars_upto(
            b,
            j,
        ));
    }
}

/// Stripping keeps a text made of digits and separators as it is.
proof fn lemma_number_chars_of_number_text(s: Seq<char>)
    requires
        forall|i: int| 0 <= i < s.len() ==> is_number_char(#[trigger] s[i]),
    ensures
        number_chars(s) == s,
{
    assert forall|j: int| 0 <= j <= s.len() implies number_chars_upto(s, j) == s.subrange(0, j) by {
        lemma_number_chars_upto_prefix(s, j);
    }
    assert(s.subrange(0, s.len() as int) =~= s);
}

proof fn lemma_number_chars_upto_prefix(s: Seq<char>, j: int)
    requires
        0 <= j <= s.len(),
        forall|i: int| 0 <= i < s.len() ==> is_number_char(#[trigger] s[i]),
    ensures
        number_chars_upto(s, j) == s.subrange(0, j),
    decreases j,
{
    if j > 0 {
        lemma_number_chars_upto_prefix(s, j - 1);
        assert(is_number_char(s[j - 1]));
        assert(number_chars_upto(s, j) =~= s.subrange(0, j));
    } else {
        assert(s.subrange(0, 0) =~= Seq::<char>::empty());
    }
}

/// A single character that is neither a digit nor a separator is stripped.
proof fn lemma_number_chars_drop_one(x: char, b: Seq<char>)
    requires
        !is_number_char(x),
    ensures
        number_chars(seq![x] + b) == number_chars(b),
        number_chars(b + seq![x]) == number_chars(b),
{
    let one = seq![x];
    assert(number_chars_upto(one, 0) == Seq::<char>::empty());
    assert(number_chars(one) =~= Seq::<char>::empty());
    lemma_number_chars_concat(one, b);
    lemma_number_chars_concat(b, one);
    assert(number_chars(one) + number_chars(b) =~= number_chars(b));
    assert(number_chars(b) + number_chars(one) =~= number_chars(b));
}

/// Text that neither starts nor ends with whitespace is its own trim.
proof fn lemma_trim_noop(s: Seq<char>)
    requires
        s.len() == 0 || (!is_white(s[0]) && !is_white(s.last())),
    ensures
        trimmed(s) == s,
{
    assert(skip_white(s, 0) == 0);
    assert(back_white(s, 0, s.len() as int) == s.len());
    assert(s.subrange(0, s.len() as int) =~= s);
}

/// Accounting parentheses and a leading minus are the same sign:
/// `"(" + B + ")"` and `"-" + B` normalize alike for every body `B` that
/// does not end in whitespace.
pub proof fn lemma_parentheses_mean_minus(b: Seq<char>)
    requires
        b.len() == 0 || !is_white(b.last()),
    ensures
        canonical_text(seq!['('] + b + seq![')']) == canonical_text(seq!['-'] + b),
        normalized(seq!['('] + b + seq![')']) == normalized(seq!['-'] + b),
{
    let a = seq!['('] + b + seq![')'];
    let m = seq!['-'] + b;
    lemma_trim_noop(a);
    lemma_trim_noop(m);
    assert(is_wrapped(a));
    assert(amount_body(a) =~= b);
    assert(!is_wrapped(m));
    assert(amount_body(m) == m);
    lemma_number_chars_drop_one('-', b);
}

/// A currency symbol before or after a positive numeric body changes
/// nothing: `"$" + B`, `B + "€"` and the like normalize as `B` does.
pub proof fn lemma_currency_symbol(sym: char, b: Seq<char>)
    requires
        is_currency_symbol(sym),
        is_numeric_body(b),
    ensures
        canonical_text(seq![sym] + b) == canonical_text(b),
        canonical_text(b + seq![sym]) == canonical_text(b),
        normalized(seq![sym] + b) == normalized(b),
        normalized(b + seq![sym]) == normalized(b),
{
    let p = seq![sym] + b;
    let q = b + seq![sym];
    if b.len() > 0 {
        assert(is_digit(b[0]) || b[0] == '.' || b[0] == ',');
        assert(is_digit(b[b.len() - 1]) || b[b.len() - 1] == '.' || b[b.len() - 1] == ',');
        assert(q[0] == b[0]);
    }
    assert(p.last() == if b.len() > 0 {
        b.last()
    } else {
        sym
    });
    lemma_trim_noop(b);
    lemma_trim_noop(p);
    lemma_trim_noop(q);
    assert(!is_wrapped(p) && !is_wrapped(q) && !is_wrapped(b));
    assert(!is_negative_text(p) && !is_negative_text(q) && !is_negative_text(b));
    lemma_number_chars_drop_one(sym, b);
}

proof fn lemma_concat(a: Seq<char>, b: Seq<char>, c: char, sep: Option<char>, j: int)
    requires
        0 <= j <= b.len(),
    ensures
        last_at(a + b, c, a.len() + j) == if last_at(b, c, j) >= 0 {
            a.len() + last_at(b, c, j)
        } else {
            last_index(a, c)
        },
        count_upto(a + b, c, a.len() + j) == occurrences(a, c) + count_upto(b, c, j),
        kept_upto(a + b, sep, a.len() + j) == kept(a, sep) + kept_upto(b, sep, j),
    decreases j,
{
    if j > 0 {
        lemma_concat(a, b, c, sep, j - 1);
        assert((a + b)[a.len() + j - 1] == b[j - 1]);
        assert(kept_upto(a + b, sep, a.len() + j) =~= kept(a, sep) + kept_upto(b, sep, j));
    } else {
        lemma_append(a, b, c, sep, a.len() as int);
        assert(last_at(b, c, 0) == -1);
        assert(count_upto(b, c, 0) == 0);
        assert(kept_upto(b, sep, 0) == Seq::<char>::empty());
        assert(kept_upto(a + b, sep, a.len() + j) =~= kept(a, sep) + kept_upto(b, sep, j));
    }
}

/// Separators and contributions of a concatenation.
proof fn lemma_concat_full(a: Seq<char>, b: Seq<char>, c: char, sep: Option<char>)
    ensures
        last_index(a + b, c) == if last_index(b, c) >= 0 {
            a.len() + last_index(b, c)
        } else {
            last_index(a, c)
        },
        occurrences(a + b, c) == occurrences(a, c) + occurrences(b, c),
        kept(a + b, sep) == kept(a, sep) + kept(b, sep),
{
    lemma_concat(a, b, c, sep, b.len() as int);
    assert((a + b).len() == a.len() + b.len());
}

proof fn lemma_digits_in_concat(a: Seq<char>, b: Seq<char>)
    ensures
        digits_in(a + b) == digits_in(a) + digits_in(b),
    decreases b.len(),
{
    if b.len() == 0 {
        assert(a + b =~= a);
        assert(digits_in(a) + digits_in(b) =~= digits_in(a));
    } else {
        lemma_digits_in_concat(a, b.drop_last());
        assert((a + b).drop_last() =~= a + b.drop_last());
        assert((a + b).last() == b.last());
        assert(digits_in(a + b) =~= digits_in(a) + digits_in(b));
    }
}

/// A string of digits holds no other character, and contributes itself.
proof fn lemma_digit_string(s: Seq<char>, c: char, sep: Option<char>)
    requires
        forall|i: int| 0 <= i < s.len() ==> is_digit(#[trigger] s[i]),
        !is_digit(c),
    ensures
        last_index(s, c) == -1,
        occurrences(s, c) == 0,
        kept(s, sep) == s,
        digits_in(s) == s,
    decreases s.len(),
{
    lemma_last_at_bounds(s, c, s.len() as int);
    if last_index(s, c) >= 0 {
        assert(is_digit(s[last_index(s, c)]));
    }
    if s.len() > 0 {
        let p = s.drop_last();
        assert forall|i: int| 0 <= i < p.len() implies is_digit(#[trigger] p[i]) by {
            assert(p[i] == s[i]);
        }
        lemma_digit_string(p, c, sep);
        assert(is_digit(s[s.len() - 1]));
        lemma_concat_full(p, seq![s.last()], c, sep);
        assert(p + seq![s.last()] =~= s);
        assert(kept(seq![s.last()], sep) =~= seq![s.last()]) by {
            assert(kept_upto(seq![s.last()], sep, 0) == Seq::<char>::empty());
        }
        assert(digits_in(s) =~= s);
    } else {
        assert(kept(s, sep) =~= s);
    }
}

/// One character: where it is, how often, and what it contributes.
proof fn lemma_single(x: char, c: char, sep: Option<char>)
    ensures
        last_index(seq![x], c) == if x == c {
            0int
        } else {
            -1int
        },
        occurrences(seq![x], c) == if x == c {
            1nat
        } else {
            0nat
        },
        kept(seq![x], sep) == kept_char(x, sep),
        digits_in(seq![x]) == if is_digit(x) {
            seq![x]
        } else {
            Seq::<char>::empty()
        },
{
    let s = seq![x];
    assert(last_at(s, c, 0) == -1);
    assert(count_upto(s, c, 0) == 0);
    assert(kept_upto(s, sep, 0) == Seq::<char>::empty());
    assert(kept(s, sep) =~= kept_char(x, sep));
    assert(s.drop_last() =~= Seq::<char>::empty());
    assert(digits_in(Seq::<char>::empty()) == Seq::<char>::empty());
    assert(s.last() == x);
    assert(digits_in(s) =~= if is_digit(x) {
        seq![x]
    } else {
        Seq::<char>::empty()
    });
}

/// The text of a decimal without its sign: digits, and a `.` before the
/// last `scale` of them when the scale is positive.
pub open spec fn unsigned_text(d: Decimal) -> Seq<char> {
    let w = if num_digits(d.magnitude()) > d.scale + 1 {
        num_digits(d.magnitude())
    } else {
        (d.scale + 1) as nat
    };
    let ds = padded_digits(d.magnitude(), w);
    let k = w - d.scale;
    if d.scale == 0 {
        ds
    } else {
        ds.subrange(0, k) + seq!['.'] + ds.subrange(k, w as int)
    }
}

/// The separator that the text of a decimal shows.
pub open spec fn text_separator(d: Decimal) -> Option<char> {
    if d.scale == 0 {
        None
    } else {
        Some('.')
    }
}

/// The unsigned text: where its `.` is, what it keeps, which digits it holds.
proof fn lemma_unsigned_text(d: Decimal)
    requires
        d.wf(),
    ensures
        ({
            let u = unsigned_text(d);
            let sep = text_separator(d);
            &&& last_index(u, ',') == -1
            &&& occurrences(u, ',') == 0
            &&& occurrences(u, '.') == (if d.scale == 0 {
                0nat
            } else {
                1nat
            })
            &&& (d.scale == 0 ==> last_index(u, '.') == -1)
            &&& (d.scale > 0 ==> last_index(u, '.') + 1 + d.scale == u.len())
            &&& kept(u, sep) == u
            &&& u.len() > 0 && is_digit(u[0]) && is_digit(u.last())
            &&& digits_number(digits_in(u)) == d.magnitude()
            &&& digits_in(u).len() > 0
            &&& forall|i: int| 0 <= i < u.len() ==> is_digit(#[trigger] u[i]) || u[i] == '.'
        }),
{
    let mag = d.magnitude();
    lemma_mantissa_digits(mag);
    let w = if num_digits(mag) > d.scale + 1 {
        num_digits(mag)
    } else {
        (d.scale + 1) as nat
    };
    let ds = padded_digits(mag, w);
    lemma_digits_of_padded(mag, w);
    let k = w - d.scale;
    let u = unsigned_text(d);
    let sep = text_separator(d);
    let ds1 = ds.subrange(0, k);
    let ds2 = ds.subrange(k, w as int);
    assert forall|i: int| 0 <= i < ds1.len() implies is_digit(#[trigger] ds1[i]) by {
        assert(ds1[i] == ds[i]);
    }
    assert forall|i: int| 0 <= i < ds2.len() implies is_digit(#[trigger] ds2[i]) by {
        assert(ds2[i] == ds[i + k]);
    }
    assert(ds1 + ds2 =~= ds);
    lemma_digit_string(ds, '.', sep);
    lemma_digit_string(ds, ',', sep);
    assert(digits_number(ds) == mag) by {
        lemma_pow10_mono(num_digits(mag), w);
        vstd::arithmetic::div_mod::lemma_small_mod(mag, pow10(w));
    }
    if d.scale > 0 {
        lemma_digit_string(ds1, '.', sep);
        lemma_digit_string(ds1, ',', sep);
        lemma_digit_string(ds2, '.', sep);
        lemma_digit_string(ds2, ',', sep);
        lemma_single('.', '.', sep);
        lemma_single('.', ',', sep);
        lemma_concat_full(ds1, seq!['.'], '.', sep);
        lemma_concat_full(ds1, seq!['.'], ',', sep);
        lemma_concat_full(ds1 + seq!['.'], ds2, '.', sep);
        lemma_concat_full(ds1 + seq!['.'], ds2, ',', sep);
        lemma_digits_in_concat(ds1, seq!['.']);
        lemma_digits_in_concat(ds1 + seq!['.'], ds2);
        lemma_digits_in_concat(ds1, ds2);
        assert(u[0] == ds[0]);
        assert(u.last() == ds[w - 1]);
        assert forall|i: int| 0 <= i < u.len() implies is_digit(#[trigger] u[i]) || u[i] == '.' by {
            if i < k {
                assert(u[i] == ds[i]);
            } else if i > k {
                assert(u[i] == ds[i - 1]);
            }
        }
    } else {
        assert forall|i: int| 0 <= i < u.len() implies is_digit(#[trigger] u[i]) || u[i] == '.' by {
            assert(u[i] == ds[i]);
        }
    }
}

/// The canonical text of a decimal with at most two fractional digits is
/// already canonical, and spells exactly that decimal.
pub proof fn lemma_text_reads_back(d: Decimal)
    requires
        d.wf(),
        d.scale <= 2,
    ensures
        canonical_text(d.text()) == d.text(),
        exactly_representable(d.text()),
        plain_number_value(d.text()) == d,
{
    let u = unsigned_text(d);
    let sep = text_separator(d);
    lemma_unsigned_text(d);
    let neg = d.mantissa < 0;
    let pre = if neg {
        seq!['-']
    } else {
        Seq::<char>::empty()
    };
    let t = d.text();
    assert(t =~= pre + u);
    lemma_number_chars_of_number_text(u);
    if neg {
        lemma_number_chars_drop_one('-', u);
    } else {
        assert(t =~= u);
    }
    assert(number_chars(t) == u);
    assert(t[0] == if neg {
        '-'
    } else {
        u[0]
    });
    assert(t.last() == u.last());
    lemma_trim_noop(t);
    assert(!is_wrapped(t));
    assert(is_negative_text(t) == neg);
    assert(decimal_separator(u) == sep);
    assert(unsigned_part(t) =~= u);
    let b = amount_body(trimmed(t));
    assert(b == t);
    let signed = if is_negative_text(trimmed(t)) {
        seq!['-'] + u
    } else {
        u
    };
    assert(signed =~= t);
    assert(signed[0] != '.');
    assert(canonical_text(t) == signed);
    assert(fraction_len(t) == d.scale);
    assert(number_digits(t) == digits_in(u));
    assert(digits_number(number_digits(t)) == d.magnitude());
    assert((t.len() > 0 && t[0] == '-') == neg);
    assert(plain_number_value(t).mantissa == d.mantissa);
    assert(plain_number_value(t).scale == d.scale);
    let up = unsigned_part(t);
    assert forall|i: int| 0 <= i < up.len() implies is_digit(#[trigger] up[i]) || up[i] == '.' by {
        assert(up[i] == u[i]);
        assert(is_digit(u[i]) || u[i] == '.');
    }
    assert(digits_and_points(t));
    assert(occurrences(unsigned_part(t), '.') <= 1);
    assert(d.magnitude() < MANTISSA_BOUND);
}

proof fn lemma_pow10_mono(a: nat, b: nat)
    requires
        a <= b,
    ensures
        pow10(a) <= pow10(b),
    decreases b,
{
    if a < b {
        lemma_pow10_mono(a, (b - 1) as nat);
        lemma_pow10_positive((b - 1) as nat);
    }
}

/// Normalizing is idempotent on amounts with at most two fractional
/// digits: the canonical text of what a token normalized to normalizes to
/// the same decimal. (With three or more fractional digits the text's lone
/// `.` stands more than three characters from its end and groups
/// thousands: `1.234` reads back as `1234`.)
pub proof fn lemma_normalize_idempotent(x: Seq<char>, d: Decimal)
    requires
        normalized(x) == Some(d),
        d.wf(),
        d.scale <= 2,
    ensures
        canonical_text(d.text()) == d.text(),
        exactly_representable(canonical_text(d.text())),
        plain_number_value(canonical_text(d.text())) == d,
{
    lemma_text_reads_back(d);
}

/// The decimal digits of `n`, as `n.to_string()` writes them.
pub open spec fn integer_text(n: nat) -> Seq<char> {
    padded_digits(n, num_digits(n))
}

/// Every non-negative integer that a decimal holds normalizes from its
/// digits to itself, with scale zero, as an integer token does.
pub proof fn lemma_integer_text_normalizes(n: nat)
    requires
        n < MANTISSA_BOUND,
    ensures
        canonical_text(integer_text(n)) == integer_text(n),
        exactly_representable(integer_text(n)),
        plain_number_value(integer_text(n)) == (Decimal { mantissa: n as i128, scale: 0 }),
{
    let d = Decimal { mantissa: n as i128, scale: 0 };
    lemma_mantissa_digits(n);
    assert(d.magnitude() == n);
    lemma_text_reads_back(d);
    assert(d.text() == integer_text(n));
}

/// What the separator choice keeps is digits and points, and keeps every
/// digit.
proof fn lemma_kept_shape(b: Seq<char>, sep: Option<char>, j: int)
    requires
        0 <= j <= b.len(),
        sep is None || sep == Some('.') || sep == Some(','),
    ensures
        forall|i: int|
            0 <= i < kept_upto(b, sep, j).len() ==> is_digit(#[trigger] kept_upto(b, sep, j)[i])
                || kept_upto(b, sep, j)[i] == '.',
        digits_in(kept_upto(b, sep, j)) == digits_in(b.subrange(0, j)),
    decreases j,
{
    if j > 0 {
        lemma_kept_shape(b, sep, j - 1);
        let prev = kept_upto(b, sep, j - 1);
        let piece = kept_char(b[j - 1], sep);
        lemma_digits_in_concat(prev, piece);
        lemma_digits_in_concat(b.subrange(0, j - 1), seq![b[j - 1]]);
        assert(b.subrange(0, j - 1) + seq![b[j - 1]] =~= b.subrange(0, j));
        lemma_single(b[j - 1], '.', sep);
        if is_digit(b[j - 1]) {
            lemma_single(b[j - 1], '.', sep);
        } else if sep == Some(b[j - 1]) {
            lemma_single('.', '.', sep);
        } else {
            assert(piece =~= Seq::<char>::empty());
            assert(digits_in(piece) == Seq::<char>::empty());
        }
        assert(forall|i: int| 0 <= i < piece.len() ==> is_digit(#[trigger] piece[i]) || piece[i]
            == '.');
        assert forall|i: int| 0 <= i < kept_upto(b, sep, j).len() implies is_digit(
            #[trigger] kept_upto(b, sep, j)[i],
        ) || kept_upto(b, sep, j)[i] == '.' by {
            if i >= prev.len() {
                assert(kept_upto(b, sep, j)[i] == piece[i - prev.len()]);
            } else {
                assert(kept_upto(b, sep, j)[i] == prev[i]);
            }
        }
    } else {
        assert(b.subrange(0, 0) =~= Seq::<char>::empty());
        assert(digits_in(Seq::<char>::empty()) == Seq::<char>::empty());
    }
}

/// `digits_in` keeps digits only.
proof fn lemma_digits_in_digits(s: Seq<char>)
    ensures
        forall|i: int| 0 <= i < digits_in(s).len() ==> is_digit(#[trigger] digits_in(s)[i]),
    decreases s.len(),
{
    if s.len() > 0 {
        lemma_digits_in_digits(s.drop_last());
        let p = digits_in(s.drop_last());
        assert forall|i: int| 0 <= i < digits_in(s).len() implies is_digit(
            #[trigger] digits_in(s)[i],
        ) by {
            if i < p.len() {
                assert(digits_in(s)[i] == p[i]);
            }
        }
    }
}

/// A leading zero does not change the number that digits spell.
proof fn lemma_leading_zero(s: Seq<char>)
    ensures
        digits_number(seq!['0'] + s) == digits_number(s),
    decreases s.len(),
{
    let z = seq!['0'] + s;
    if s.len() == 0 {
        assert(z.drop_last() =~= Seq::<char>::empty());
        assert(digits_number(Seq::<char>::empty()) == 0);
        assert(z.last() == '0');
    } else {
        lemma_leading_zero(s.drop_last());
        assert(z.drop_last() =~= seq!['0'] + s.drop_last());
        assert(z.last() == s.last());
        assert(digits_number(z) == digits_number(z.drop_last()) * 10 + digit_value(z.last()));
    }
}

/// The negation of a decimal: the same scale, the opposite mantissa.
pub open spec fn negated(d: Decimal) -> Decimal {
    Decimal { mantissa: (-d.mantissa) as i128, scale: d.scale }
}

/// Where a positive numeric body `B` with at least one digit spells a
/// decimal exactly, `"-" + B` and `"(" + B + ")"` spell exactly its
/// negation. (Without a digit they differ: `"."` reads as zero, `"-."` as
/// nothing.)
pub proof fn lemma_minus_negates(b: Seq<char>)
    requires
        is_numeric_body(b),
        digits_in(b).len() > 0,
        exactly_representable(canonical_text(b)),
    ensures
        exactly_representable(canonical_text(seq!['-'] + b)),
        plain_number_value(canonical_text(seq!['-'] + b)) == negated(
            plain_number_value(canonical_text(b)),
        ),
        canonical_text(seq!['('] + b + seq![')']) == canonical_text(seq!['-'] + b),
{
    let m = seq!['-'] + b;
    let cb = canonical_text(b);
    let cm = canonical_text(m);
    if b.len() > 0 {
        assert(is_digit(b[0]) || b[0] == '.' || b[0] == ',');
        assert(is_digit(b[b.len() - 1]) || b[b.len() - 1] == '.' || b[b.len() - 1] == ',');
        lemma_parentheses_mean_minus(b);
    } else {
        lemma_parentheses_mean_minus(b);
    }
    lemma_trim_noop(b);
    lemma_trim_noop(m);
    assert(!is_wrapped(b) && !is_negative_text(b));
    assert(!is_wrapped(m) && is_negative_text(m));
    assert(amount_body(m) == m);
    assert forall|i: int| 0 <= i < b.len() implies is_number_char(#[trigger] b[i]) by {}
    lemma_number_chars_of_number_text(b);
    lemma_number_chars_drop_one('-', b);
    let sep = decimal_separator(b);
    let k = kept(b, sep);
    lemma_kept_shape(b, sep, b.len() as int);
    assert(b.subrange(0, b.len() as int) =~= b);
    assert(cm =~= seq!['-'] + k);
    assert(unsigned_part(cm) =~= k);
    if k.len() > 0 && k[0] == '.' {
        let z = seq!['0'] + k;
        assert(cb == z);
        assert(unsigned_part(cb) == z);
        lemma_single('0', '.', sep);
        lemma_concat_full(seq!['0'], k, '.', sep);
        lemma_digits_in_concat(seq!['0'], k);
        lemma_leading_zero(digits_in(k));
        assert(digits_in(z) == seq!['0'] + digits_in(k));
        assert(b.subrange(0, b.len() as int) =~= b);
        assert(digits_in(k).len() > 0);
        assert(fraction_len(cm) == fraction_len(cb));
        assert(digits_number(number_digits(cm)) == digits_number(number_digits(cb)));
        assert forall|i: int| 0 <= i < k.len() implies is_digit(#[trigger] k[i]) || k[i] == '.' by {
            assert(k[i] == kept_upto(b, sep, b.len() as int)[i]);
        }
    } else {
        assert(cb == k);
        assert(unsigned_part(cb) =~= k);
        assert(digits_in(k).len() > 0);
    }
    assert forall|i: int| 0 <= i < k.len() implies is_digit(#[trigger] k[i]) || k[i] == '.' by {
        assert(k[i] == kept_upto(b, sep, b.len() as int)[i]);
    }
    assert(digits_and_points(cm));
    assert(number_digits(cm) == digits_in(k));
    assert(occurrences(unsigned_part(cm), '.') == occurrences(unsigned_part(cb), '.'));
    assert(cm.len() > 0 && cm[0] == '-');
    assert(cb.len() > 0 && cb[0] != '-') by {
        assert(k.len() > 0 ==> k[0] != '-');
    }
    assert(digits_number(number_digits(cm)) == digits_number(number_digits(cb)));
    assert(fraction_len(cm) == fraction_len(cb));
    lemma_digits_in_digits(unsigned_part(cb));
    lemma_digits_number_bounds(number_digits(cb));
    assert(plain_number_value(cm).mantissa == -plain_number_value(cb).mantissa);
}

} // verus!
