//! An exact decimal number: an integer mantissa and a power-of-ten scale.
use crate::text::{digit_char, digit_value, is_digit, string_of};
use vstd::prelude::*;

verus! {

/// The largest magnitude a mantissa may reach, exclusive: 2^96.
pub const MANTISSA_BOUND: u128 = 0x1_0000_0000_0000_0000_0000_0000;

/// The largest number of fractional digits.
pub const MAX_SCALE: u32 = 28;

/// The number `mantissa / 10^scale`, held exactly. It carries the same
/// data as `rust_decimal::Decimal`: a 96-bit magnitude, a sign and a scale of
/// at most 28. Two values with different scales may denote the same number
/// (`1000` and `1000.00`); the scale is kept as it was read.
#[derive(Debug, Clone, Copy, PartialEq, Eq)]
pub struct Decimal {
    pub mantissa: i128,
    pub scale: u32,
}

pub open spec fn pow10(n: nat) -> nat
    decreases n,
{
    if n == 0 {
        1
    } else {
        10 * pow10((n - 1) as nat)
    }
}

/// The number of decimal digits of `n`; zero has one digit.
pub open spec fn num_digits(n: nat) -> nat
    decreases n,
{
    if n < 10 {
        1
    } else {
        1 + num_digits(n / 10)
    }
}

/// The last `w` decimal digits of `n`, left-padded with zeros.
pub open spec fn padded_digits(n: nat, w: nat) -> Seq<char>
    decreases w,
{
    if w == 0 {
        Seq::empty()
    } else {
        padded_digits(n / 10, (w - 1) as nat).push(digit_char((n % 10) as int))
    }
}

/// The number that a string of digit characters spells.
pub open spec fn digits_number(s: Seq<char>) -> int
    decreases s.len(),
{
    if s.len() == 0 {
        0
    } else {
        digits_number(s.drop_last()) * 10 + digit_value(s.last())
    }
}

/// A digit string spells a number below `10^len`.
pub proof fn lemma_digits_number_bounds(s: Seq<char>)
    requires
        forall|i: int| 0 <= i < s.len() ==> is_digit(#[trigger] s[i]),
    ensures
        0 <= digits_number(s) < pow10(s.len()),
    decreases s.len(),
{
    if s.len() > 0 {
        let p = s.drop_last();
        assert forall|i: int| 0 <= i < p.len() implies is_digit(#[trigger] p[i]) by {
            assert(p[i] == s[i]);
        }
        lemma_digits_number_bounds(p);
        assert(is_digit(s[s.len() - 1]));
        assert(pow10(s.len()) == 10 * pow10(p.len()));
        assert(digits_number(s) == digits_number(p) * 10 + digit_value(s.last()));
        assert(digits_number(p) * 10 + digit_value(s.last()) < 10 * pow10(p.len()))
            by (nonlinear_arith)
            requires
                digits_number(p) < pow10(p.len()),
                0 <= digit_value(s.last()) < 10,
        ;
    }
}

/// Writing out the number a digit string spells, at its width, gives the
/// string back.
pub proof fn lemma_padded_of_digits(s: Seq<char>)
    requires
        forall|i: int| 0 <= i < s.len() ==> is_digit(#[trigger] s[i]),
    ensures
        padded_digits(digits_number(s) as nat, s.len()) == s,
    decreases s.len(),
{
    if s.len() > 0 {
        let p = s.drop_last();
        assert forall|i: int| 0 <= i < p.len() implies is_digit(#[trigger] p[i]) by {
            assert(p[i] == s[i]);
        }
        lemma_padded_of_digits(p);
        lemma_digits_number_bounds(p);
        assert(is_digit(s[s.len() - 1]));
        let n = digits_number(s);
        let q = digits_number(p);
        let d = digit_value(s.last());
        assert(n == q * 10 + d);
        assert((q * 10 + d) / 10 == q && (q * 10 + d) % 10 == d) by (nonlinear_arith)
            requires
                0 <= q,
                0 <= d < 10,
        ;
        assert(padded_digits(n as nat, s.len()) =~= s);
    }
}

/// The digits of a number below `10^w`, written at width `w`, spell it.
pub proof fn lemma_digits_of_padded(n: nat, w: nat)
    ensures
        digits_number(padded_digits(n, w)) == n % pow10(w),
        padded_digits(n, w).len() == w,
        forall|i: int| 0 <= i < w ==> is_digit(#[trigger] padded_digits(n, w)[i]),
    decreases w,
{
    if w > 0 {
        let m = (w - 1) as nat;
        lemma_digits_of_padded(n / 10, m);
        let ps = padded_digits(n, w);
        assert(ps.drop_last() =~= padded_digits(n / 10, m));
        assert(pow10(w) == 10 * pow10(m));
        let p = pow10(m);
        assert(p > 0) by {
            lemma_pow10_positive(m);
        }
        assert(((n / 10) % p) * 10 + n % 10 == n % (10 * p)) by (nonlinear_arith)
            requires
                p > 0,
        {
            vstd::arithmetic::div_mod::lemma_breakdown(n as int, 10, p as int);
        }
        assert forall|i: int| 0 <= i < w implies is_digit(#[trigger] ps[i]) by {
            if i < m {
                assert(ps[i] == padded_digits(n / 10, m)[i]);
            }
        }
    }
}

pub proof fn lemma_pow10_positive(n: nat)
    ensures
        pow10(n) > 0,
    decreases n,
{
    if n > 0 {
        lemma_pow10_positive((n - 1) as nat);
    }
}

/// A number has fewer digits than any power of ten above it, and is below
/// ten to the number of its digits.
pub proof fn lemma_num_digits(n: nat, k: nat)
    requires
        n < pow10(k),
        k >= 1,
    ensures
        1 <= num_digits(n) <= k,
        n < pow10(num_digits(n)),
    decreases n,
{
    if n >= 10 {
        assert(n / 10 < pow10((k - 1) as nat));
        assert(k >= 2) by {
            if k == 1 {
                assert(pow10(1) == 10 * pow10(0));
            }
        }
        lemma_num_digits(n / 10, (k - 1) as nat);
        let m = num_digits(n / 10);
        assert(n < pow10(m + 1)) by {
            assert(pow10(m + 1) == 10 * pow10(m));
        }
    } else {
        assert(pow10(1) == 10 * pow10(0));
    }
}

/// Every mantissa below 2^96 has at most 29 digits.
pub proof fn lemma_mantissa_digits(n: nat)
    requires
        n < MANTISSA_BOUND,
    ensures
        1 <= num_digits(n) <= 29,
        n < pow10(num_digits(n)),
{
    assert(pow10(29) == 100_000_000_000_000_000_000_000_000_000) by {
        reveal_with_fuel(pow10, 30);
    }
    lemma_num_digits(n, 29);
}

/// The number of decimal digits of `n`.
pub fn count_digits(n: u128) -> (r: u32)
    requires
        n < MANTISSA_BOUND,
    ensures
        r == num_digits(n as nat),
        1 <= r <= 29,
    decreases n,
{
    proof {
        lemma_mantissa_digits(n as nat);
    }
    if n < 10 {
        1
    } else {
        let r = count_digits(n / 10);
        proof {
            lemma_mantissa_digits((n / 10) as nat);
        }
        1 + r
    }
}

/// Appends the last `w` decimal digits of `n` to `out`, left-padded with
/// zeros.
pub fn push_padded_digits(n: u128, w: u32, out: &mut Vec<char>)
    ensures
        final(out)@ == old(out)@ + padded_digits(n as nat, w as nat),
    decreases w,
{
    if w > 0 {
        push_padded_digits(n / 10, w - 1, out);
        let d = (n % 10) as u32;
        let c = char_of_digit(d);
        out.push(c);
        assert(final(out)@ =~= old(out)@ + padded_digits(n as nat, w as nat));
    } else {
        assert(final(out)@ =~= old(out)@ + padded_digits(n as nat, w as nat));
    }
}

/// The digit character for `d < 10`.
pub fn char_of_digit(d: u32) -> (c: char)
    requires
        d < 10,
    ensures
        c == digit_char(d as int),
{
    if d == 0 { '0' } else if d == 1 { '1' } else if d == 2 { '2' } else if d == 3 { '3' } else if d
        == 4 { '4' } else if d == 5 { '5' } else if d == 6 { '6' } else if d == 7 { '7' } else if d
        == 8 { '8' } else { '9' }
}

impl Decimal {
    /// Mantissa and scale within the bounds of `rust_decimal::Decimal`.
    pub open spec fn wf(self) -> bool {
        -(MANTISSA_BOUND as int) < self.mantissa < MANTISSA_BOUND as int && self.scale <= MAX_SCALE
    }

    pub open spec fn magnitude(self) -> nat {
        if self.mantissa < 0 {
            (-self.mantissa) as nat
        } else {
            self.mantissa as nat
        }
    }

    /// The canonical text of the number: an optional `-`, the integer digits
    /// (at least one), and, when the scale is positive, a `.` followed by
    /// exactly `scale` digits. `1000.00` keeps its two zeros.
    pub open spec fn text(self) -> Seq<char> {
        let w = if num_digits(self.magnitude()) > self.scale + 1 {
            num_digits(self.magnitude())
        } else {
            (self.scale + 1) as nat
        };
        let ds = padded_digits(self.magnitude(), w);
        let k = w - self.scale;
        let unsigned = if self.scale == 0 {
            ds
        } else {
            ds.subrange(0, k) + seq!['.'] + ds.subrange(k, w as int)
        };
        if self.mantissa < 0 {
            seq!['-'] + unsigned
        } else {
            unsigned
        }
    }

    /// The canonical text of the number (see [`Decimal::text`]), as
    /// `rust_decimal` displays it: `-1234.56`, `1000.00`, `0.50`.
    pub fn to_text(&self) -> (r: String)
        requires
            self.wf(),
        ensures
            r@ == self.text(),
    {
        let mag: u128 = if self.mantissa < 0 {
            (-self.mantissa) as u128
        } else {
            self.mantissa as u128
        };
        assert(mag == self.magnitude());
        let nd = count_digits(mag);
        let w: u32 = if nd > self.scale + 1 {
            nd
        } else {
            self.scale + 1
        };
        let mut ds: Vec<char> = Vec::new();
        push_padded_digits(mag, w, &mut ds);
        proof {
            lemma_digits_of_padded(mag as nat, w as nat);
        }
        assert(ds@ =~= padded_digits(mag as nat, w as nat));
        let k: usize = (w - self.scale) as usize;
        let mut out: Vec<char> = Vec::new();
        if self.mantissa < 0 {
            out.push('-');
        }
        let ghost start = out@;
        let mut i: usize = 0;
        while i < k
            invariant
                k <= ds@.len(),
                i <= k,
                out@ == start + ds@.subrange(0, i as int),
            decreases k - i,
        {
            out.push(ds[i]);
            i = i + 1;
            assert(out@ =~= start + ds@.subrange(0, i as int));
        }
        if self.scale > 0 {
            out.push('.');
        }
        let ghost mid = out@;
        let n = ds.len();
        while i < n
            invariant
                k <= i <= n,
                n == ds@.len(),
                out@ == mid + ds@.subrange(k as int, i as int),
            decreases n - i,
        {
            out.push(ds[i]);
            i = i + 1;
            assert(out@ =~= mid + ds@.subrange(k as int, i as int));
        }
        proof {
            if self.scale == 0 {
                assert(ds@.subrange(0, k as int) =~= ds@);
                assert(ds@.subrange(k as int, n as int) =~= Seq::<char>::empty());
            }
        }
        assert(out@ =~= self.text());
        string_of(&out)
    }

    /// The integer `value`, with scale zero.
    pub fn from_i64(value: i64) -> (r: Decimal)
        ensures
            r == (Decimal { mantissa: value as i128, scale: 0 }),
            r.wf(),
    {
        Decimal { mantissa: value as i128, scale: 0 }
    }

    /// The integer `value`, with scale zero.
    pub fn from_u64(value: u64) -> (r: Decimal)
        ensures
            r == (Decimal { mantissa: value as i128, scale: 0 }),
            r.wf(),
    {
        Decimal { mantissa: value as i128, scale: 0 }
    }

    /// Zero, with scale zero.
    pub fn zero() -> (r: Decimal)
        ensures
            r == (Decimal { mantissa: 0, scale: 0 }),
            r.wf(),
    {
        Decimal { mantissa: 0, scale: 0 }
    }
}

} // verus!
