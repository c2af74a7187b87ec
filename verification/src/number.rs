//! Decimal numbers with six fractional digits, and the exact scaling of
//! decimal numerals that byte counts and number literals are read with.

use vstd::prelude::*;
use vstd::arithmetic::div_mod::{lemma_div_denominator, lemma_hoist_over_denominator};
use crate::text::{
    decimal, digit_char, digit_of, digit_to_char, digit_value, is_digit, push_chars, push_decimal,
};

verus! {

/// How many `micros` make one unit.
pub const MICROS_PER_UNIT: u64 = 1_000_000;

/// The largest factor that a decimal numeral is scaled by: `1024^4`.
pub const MAX_SCALE: u64 = 1_099_511_627_776;

/// A decimal number held as a count of millionths.
///
/// Every numeric literal of the language, every sampled percentage and every
/// threshold is a `Number`; its value is `micros / 1_000_000`.
#[derive(Clone, Copy, Debug, PartialEq, Eq, Structural)]
pub struct Number {
    pub micros: i128,
}

/// Ten to the power of `e`.
pub open spec fn pow10(e: nat) -> nat
    decreases e,
{
    if e == 0 {
        1
    } else {
        10 * pow10((e - 1) as nat)
    }
}

/// The number that a run of decimal digits denotes.
pub open spec fn digits_value(s: Seq<char>) -> nat
    decreases s.len(),
{
    if s.len() == 0 {
        0
    } else {
        digits_value(s.drop_last()) * 10 + digit_value(s.last())
    }
}

/// Every character is a decimal digit.
pub open spec fn all_digits(s: Seq<char>) -> bool {
    forall|i: int| 0 <= i < s.len() ==> is_digit(#[trigger] s[i])
}

/// Where the run of digits that starts at `from` ends.
pub open spec fn digits_end(s: Seq<char>, from: int) -> int
    decreases s.len() - from,
{
    if 0 <= from < s.len() && is_digit(s[from]) {
        digits_end(s, from + 1)
    } else {
        from
    }
}

/// The digits before and after the point of an unsigned decimal numeral:
/// one or more digits, then optionally a point and one or more digits.
pub open spec fn decimal_parts(t: Seq<char>) -> Option<(Seq<char>, Seq<char>)> {
    let w = digits_end(t, 0);
    if w == 0 {
        None
    } else if w == t.len() {
        Some((t, Seq::empty()))
    } else if t[w] != '.' {
        None
    } else {
        let f = digits_end(t, w + 1);
        if f == t.len() && f > w + 1 {
            Some((t.take(w), t.subrange(w + 1, t.len() as int)))
        } else {
            None
        }
    }
}

/// `whole.frac` times `scale`, rounded down.
pub open spec fn scaled_floor(whole: Seq<char>, frac: Seq<char>, scale: nat) -> nat {
    (digits_value(whole + frac) * scale) / pow10(frac.len())
}

/// The number that a literal denotes: an optional `-`, then an unsigned
/// decimal numeral whose whole part is at most `u64::MAX`. Fractional digits
/// beyond the sixth are cut off.
pub open spec fn number_of(t: Seq<char>) -> Option<Number> {
    let negative = t.len() > 0 && t[0] == '-';
    let body = if negative {
        t.skip(1)
    } else {
        t
    };
    match decimal_parts(body) {
        None => None,
        Some((whole, frac)) => if digits_value(whole) > u64::MAX {
            None
        } else {
            let magnitude = scaled_floor(whole, frac, MICROS_PER_UNIT as nat);
            Some(
                Number {
                    micros: if negative {
                        -(magnitude as int)
                    } else {
                        magnitude as int
                    } as i128,
                },
            )
        },
    }
}

/// The scaled fraction, digit by digit from the right.
pub open spec fn frac_scaled(frac: Seq<char>, scale: nat) -> nat
    decreases frac.len(),
{
    if frac.len() == 0 {
        0
    } else {
        (digit_value(frac[0]) * scale + frac_scaled(frac.drop_first(), scale)) / 10
    }
}

/// A power of ten is positive.
pub proof fn lemma_pow10_positive(e: nat)
    ensures
        pow10(e) > 0,
    decreases e,
{
    if e > 0 {
        lemma_pow10_positive((e - 1) as nat);
    }
}

/// A numeral is its first digit, shifted, plus the rest.
pub proof fn lemma_digits_value_first(s: Seq<char>)
    requires
        s.len() > 0,
    ensures
        digits_value(s) == digit_value(s[0]) * pow10((s.len() - 1) as nat) + digits_value(
            s.drop_first(),
        ),
    decreases s.len(),
{
    if s.len() == 1 {
        assert(s.drop_last().len() == 0);
        assert(s.drop_first().len() == 0);
        assert(digits_value(s.drop_last()) == 0);
        assert(digits_value(s.drop_first()) == 0);
        assert(s.last() == s[0]);
        assert(pow10(0) == 1);
        let d = digit_value(s[0]) as int;
        let one = pow10((s.len() - 1) as nat) as int;
        assert(d * one == d) by (nonlinear_arith)
            requires
                one == 1,
        ;
    } else {
        let init = s.drop_last();
        lemma_digits_value_first(init);
        assert(init[0] == s[0]);
        assert(init.drop_first() == s.drop_first().drop_last());
        assert(s.drop_first().last() == s.last());
        let d = digit_value(s[0]) as int;
        let p = pow10((s.len() - 2) as nat) as int;
        let r = digits_value(init.drop_first()) as int;
        let q = pow10((s.len() - 1) as nat) as int;
        assert(q == 10 * p);
        assert((d * p + r) * 10 == d * q + r * 10) by (nonlinear_arith)
            requires
                q == 10 * p,
        ;
        assert(digits_value(init) == d * p + r);
        assert(digits_value(s.drop_first()) == r * 10 + digit_value(s.last()));
    }
}

/// The value of two runs of digits side by side.
pub proof fn lemma_digits_value_concat(a: Seq<char>, b: Seq<char>)
    ensures
        digits_value(a + b) == digits_value(a) * pow10(b.len()) + digits_value(b),
    decreases b.len(),
{
    let x = digits_value(a) as int;
    if b.len() == 0 {
        assert(a + b == a);
        let one = pow10(b.len()) as int;
        assert(x * one == x) by (nonlinear_arith)
            requires
                one == 1,
        ;
    } else {
        lemma_digits_value_concat(a, b.drop_last());
        assert((a + b).drop_last() == a + b.drop_last());
        assert((a + b).last() == b.last());
        let p = pow10((b.len() - 1) as nat) as int;
        let y = digits_value(b.drop_last()) as int;
        let q = pow10(b.len()) as int;
        assert(q == 10 * p);
        assert((x * p + y) * 10 == x * q + y * 10) by (nonlinear_arith)
            requires
                q == 10 * p,
        ;
        assert(digits_value(a + b.drop_last()) == x * p + y);
    }
}

/// A prefix of a numeral denotes no more than the numeral.
pub proof fn lemma_digits_value_prefix(s: Seq<char>, n: int)
    requires
        0 <= n <= s.len(),
    ensures
        digits_value(s.take(n)) <= digits_value(s),
    decreases s.len() - n,
{
    if n == s.len() {
        assert(s.take(n) == s);
    } else {
        lemma_digits_value_prefix(s, n + 1);
        assert(s.take(n + 1).drop_last() == s.take(n));
    }
}

/// The digit-by-digit fraction is the fraction's value times the scale,
/// divided by the power of ten of its length, rounded down.
pub proof fn lemma_frac_scaled(frac: Seq<char>, scale: nat)
    ensures
        frac_scaled(frac, scale) == (digits_value(frac) * scale) / pow10(frac.len()),
    decreases frac.len(),
{
    if frac.len() == 0 {
        let zero = digits_value(frac) as int;
        let m = scale as int;
        assert(zero * m == 0) by (nonlinear_arith)
            requires
                zero == 0,
        ;
    } else {
        let rest = frac.drop_first();
        lemma_frac_scaled(rest, scale);
        lemma_digits_value_first(frac);
        let d = digit_value(frac[0]) as int;
        let p = pow10(rest.len()) as int;
        let r = digits_value(rest) as int;
        let m = scale as int;
        lemma_pow10_positive(rest.len());
        assert(pow10(frac.len()) == 10 * p);
        assert((d * p + r) * m == r * m + (d * m) * p) by (nonlinear_arith);
        assert(r * m >= 0) by (nonlinear_arith)
            requires
                r >= 0,
                m >= 0,
        ;
        assert(d * m >= 0) by (nonlinear_arith)
            requires
                d >= 0,
                m >= 0,
        ;
        lemma_hoist_over_denominator(r * m, d * m, p as nat);
        assert(((d * p + r) * m) / p == (r * m) / p + d * m);
        assert((d * p + r) * m >= 0);
        lemma_div_denominator((d * p + r) * m, p, 10);
        assert(p * 10 == 10 * p);
        assert(digits_value(frac) == d * p + r);
        assert(frac_scaled(rest, scale) == (r * m) / p);
        assert(frac_scaled(frac, scale) == (d * m + (r * m) / p) / 10);
    }
}

/// Scaling a numeral scales its whole part and its fraction apart.
pub proof fn lemma_scaled_floor_split(whole: Seq<char>, frac: Seq<char>, scale: nat)
    ensures
        scaled_floor(whole, frac, scale) == digits_value(whole) * scale + frac_scaled(frac, scale),
{
    lemma_digits_value_concat(whole, frac);
    lemma_frac_scaled(frac, scale);
    lemma_pow10_positive(frac.len());
    let w = digits_value(whole) as int;
    let f = digits_value(frac) as int;
    let p = pow10(frac.len()) as int;
    let m = scale as int;
    assert((w * p + f) * m == f * m + (w * m) * p) by (nonlinear_arith);
    lemma_hoist_over_denominator(f * m, w * m, p as nat);
    assert(digits_value(whole + frac) == w * p + f);
}

/// Finds where the run of digits that starts at `from` ends.
pub fn scan_digits(t: &Vec<char>, from: usize) -> (r: usize)
    requires
        from <= t.len(),
    ensures
        r == digits_end(t@, from as int),
        from <= r <= t.len(),
        forall|i: int| from <= i < r ==> is_digit(#[trigger] t@[i]),
        r < t.len() ==> !is_digit(t@[r as int]),
{
    let mut i: usize = from;
    while i < t.len() && '0' <= t[i] && t[i] <= '9'
        invariant
            from <= i <= t.len(),
            digits_end(t@, from as int) == digits_end(t@, i as int),
            forall|j: int| from <= j < i ==> is_digit(#[trigger] t@[j]),
        decreases t.len() - i,
    {
        i = i + 1;
    }
    i
}

/// Splits an unsigned decimal numeral at its point.
pub fn split_decimal(t: &Vec<char>) -> (r: Option<(Vec<char>, Vec<char>)>)
    ensures
        match (r, decimal_parts(t@)) {
            (Some((w, f)), Some((sw, sf))) => w@ == sw && f@ == sf && all_digits(w@) && all_digits(
                f@,
            ),
            (None, None) => true,
            _ => false,
        },
{
    let w = scan_digits(t, 0);
    if w == 0 {
        return None;
    }
    if w == t.len() {
        let whole = copy_range(t, 0, w);
        assert(t@.subrange(0, w as int) == t@);
        return Some((whole, Vec::new()));
    }
    if t[w] != '.' {
        return None;
    }
    let f = scan_digits(t, w + 1);
    if f == t.len() && f > w + 1 {
        let whole = copy_range(t, 0, w);
        let frac = copy_range(t, w + 1, f);
        assert(t@.subrange(0, w as int) == t@.take(w as int));
        Some((whole, frac))
    } else {
        None
    }
}

/// A copy of `t[start..end]`.
pub fn copy_range(t: &Vec<char>, start: usize, end: usize) -> (r: Vec<char>)
    requires
        start <= end <= t.len(),
    ensures
        r@ == t@.subrange(start as int, end as int),
{
    let mut r: Vec<char> = Vec::new();
    let mut i: usize = start;
    while i < end
        invariant
            start <= i <= end <= t.len(),
            r@ == t@.subrange(start as int, i as int),
        decreases end - i,
    {
        r.push(t[i]);
        assert(t@.subrange(start as int, i + 1) == t@.subrange(start as int, i as int).push(
            t@[i as int],
        ));
        i = i + 1;
    }
    r
}

/// The value of a run of digits, or `None` when it exceeds `u64::MAX`.
pub fn whole_value(digits: &Vec<char>) -> (r: Option<u64>)
    requires
        all_digits(digits@),
    ensures
        match r {
            Some(v) => v == digits_value(digits@),
            None => digits_value(digits@) > u64::MAX,
        },
{
    let mut acc: u64 = 0;
    let mut i: usize = 0;
    while i < digits.len()
        invariant
            i <= digits.len(),
            all_digits(digits@),
            acc == digits_value(digits@.take(i as int)),
        decreases digits.len() - i,
    {
        let d: u64 = digit_of(digits[i]) as u64;
        proof {
            assert(digits@.take(i + 1).drop_last() == digits@.take(i as int));
            assert(digits@.take(i + 1).last() == digits@[i as int]);
        }
        if acc > (u64::MAX - d) / 10 {
            proof {
                lemma_digits_value_prefix(digits@, i + 1);
            }
            return None;
        }
        acc = acc * 10 + d;
        i = i + 1;
    }
    assert(digits@.take(digits.len() as int) == digits@);
    Some(acc)
}

/// The fraction `0.frac` times `scale`, rounded down.
pub fn scale_fraction(frac: &Vec<char>, scale: u64) -> (r: u64)
    requires
        all_digits(frac@),
        scale <= MAX_SCALE,
    ensures
        r == frac_scaled(frac@, scale as nat),
        r <= scale,
{
    let mut q: u64 = 0;
    let mut i: usize = frac.len();
    assert(frac@.skip(frac.len() as int).len() == 0);
    while i > 0
        invariant
            i <= frac.len(),
            all_digits(frac@),
            scale <= MAX_SCALE,
            q == frac_scaled(frac@.skip(i as int), scale as nat),
            q <= scale,
        decreases i,
    {
        i = i - 1;
        let d: u64 = digit_of(frac[i]) as u64;
        proof {
            assert(frac@.skip(i as int)[0] == frac@[i as int]);
            assert(frac@.skip(i as int).drop_first() == frac@.skip(i + 1));
            assert(d * scale <= 9 * scale) by (nonlinear_arith)
                requires
                    d <= 9,
                    scale >= 0,
            ;
        }
        q = (d * scale + q) / 10;
    }
    assert(frac@.skip(0) == frac@);
    q
}

/// `whole.frac` times `scale`, rounded down, or `None` when the whole part
/// exceeds `u64::MAX`.
pub fn scale_decimal(whole: &Vec<char>, frac: &Vec<char>, scale: u64) -> (r: Option<u128>)
    requires
        all_digits(whole@),
        all_digits(frac@),
        scale <= MAX_SCALE,
    ensures
        match r {
            Some(v) => v == scaled_floor(whole@, frac@, scale as nat) && digits_value(whole@)
                <= u64::MAX && v <= u64::MAX * scale + scale,
            None => digits_value(whole@) > u64::MAX,
        },
{
    match whole_value(whole) {
        None => None,
        Some(w) => {
            let q = scale_fraction(frac, scale);
            proof {
                lemma_scaled_floor_split(whole@, frac@, scale as nat);
                assert(w * scale <= 0xffff_ffff_ffff_ffff * 1_099_511_627_776) by (nonlinear_arith)
                    requires
                        w <= 0xffff_ffff_ffff_ffff,
                        scale <= 1_099_511_627_776,
                        w >= 0,
                        scale >= 0,
                ;
                assert(w * scale <= 0xffff_ffff_ffff_ffff * scale) by (nonlinear_arith)
                    requires
                        w <= 0xffff_ffff_ffff_ffff,
                        scale >= 0,
                ;
            }
            Some((w as u128) * (scale as u128) + (q as u128))
        },
    }
}

/// Reads a number literal.
pub fn parse_number(t: &Vec<char>) -> (r: Option<Number>)
    ensures
        r == number_of(t@),
{
    let negative = t.len() > 0 && t[0] == '-';
    let body = if negative {
        copy_range(t, 1, t.len())
    } else {
        copy_range(t, 0, t.len())
    };
    proof {
        if negative {
            assert(body@ == t@.skip(1));
        } else {
            assert(body@ == t@);
        }
    }
    match split_decimal(&body) {
        None => None,
        Some((whole, frac)) => match scale_decimal(&whole, &frac, MICROS_PER_UNIT) {
            None => None,
            Some(magnitude) => {
                let m: i128 = magnitude as i128;
                Some(
                    Number {
                        micros: if negative {
                            -m
                        } else {
                            m
                        },
                    },
                )
            },
        },
    }
}

/// The six fractional digits of a count of millionths below one unit.
pub open spec fn six_digits(frac: nat) -> Seq<char> {
    seq![
        digit_char(frac / 100_000 % 10),
        digit_char(frac / 10_000 % 10),
        digit_char(frac / 1_000 % 10),
        digit_char(frac / 100 % 10),
        digit_char(frac / 10 % 10),
        digit_char(frac % 10),
    ]
}

/// `s` without the zeros at its end.
pub open spec fn trim_zeros(s: Seq<char>) -> Seq<char>
    decreases s.len(),
{
    if s.len() > 0 && s.last() == '0' {
        trim_zeros(s.drop_last())
    } else {
        s
    }
}

impl Number {
    /// The absolute value, in millionths.
    pub open spec fn magnitude(self) -> nat {
        if self.micros < 0 {
            (-self.micros) as nat
        } else {
            self.micros as nat
        }
    }

    /// `-` for a number below zero.
    pub open spec fn sign_text(self) -> Seq<char> {
        if self.micros < 0 {
            seq!['-']
        } else {
            Seq::empty()
        }
    }

    /// The shortest decimal form: `80`, `80.5`, `-0.25`.
    pub open spec fn text(self) -> Seq<char> {
        let frac = trim_zeros(six_digits(self.magnitude() % 1_000_000));
        self.sign_text() + decimal(self.magnitude() / 1_000_000) + if frac.len() == 0 {
            Seq::empty()
        } else {
            seq!['.'] + frac
        }
    }

    /// The decimal form that always shows a fraction: `80.0`, `80.5`.
    pub open spec fn debug_text(self) -> Seq<char> {
        let frac = trim_zeros(six_digits(self.magnitude() % 1_000_000));
        self.sign_text() + decimal(self.magnitude() / 1_000_000) + seq!['.'] + if frac.len()
            == 0 {
            seq!['0']
        } else {
            frac
        }
    }

    /// The decimal form with one fractional digit, rounded half away from zero.
    pub open spec fn fixed_text(self) -> Seq<char> {
        let tenths = (self.magnitude() + 50_000) / 100_000;
        self.sign_text() + decimal(tenths / 10) + seq!['.', digit_char(tenths % 10)]
    }

    /// The whole part, cut toward zero and held within `0..=u64::MAX`.
    pub open spec fn whole_part(self) -> u64 {
        if self.micros < 0 {
            0
        } else if self.micros / 1_000_000 > u64::MAX {
            u64::MAX
        } else {
            (self.micros / 1_000_000) as u64
        }
    }

    /// How far two numbers are apart, in millionths.
    pub open spec fn gap(self, other: Number) -> nat {
        if self.micros >= other.micros {
            (self.micros - other.micros) as nat
        } else {
            (other.micros - self.micros) as nat
        }
    }

    /// The number `n`.
    pub fn from_whole(n: u64) -> (r: Number)
        ensures
            r.micros == n * 1_000_000,
    {
        Number { micros: (n as i128) * 1_000_000 }
    }

    /// The number `numerator / denominator * 100`, cut to millionths, and 0
    /// where the denominator is 0.
    pub fn percent_of(numerator: u64, denominator: u64) -> (r: Number)
        ensures
            denominator == 0 ==> r.micros == 0,
            denominator > 0 ==> r.micros == (numerator * 100_000_000) / (denominator as int),
    {
        if denominator == 0 {
            Number { micros: 0 }
        } else {
            Number { micros: ((numerator as i128) * 100_000_000) / (denominator as i128) }
        }
    }

    /// The whole part, cut toward zero and held within `0..=u64::MAX`.
    pub fn whole(&self) -> (r: u64)
        ensures
            r == self.whole_part(),
    {
        if self.micros < 0 {
            0
        } else {
            let w: i128 = self.micros / 1_000_000;
            if w > 0xffff_ffff_ffff_ffff {
                u64::MAX
            } else {
                w as u64
            }
        }
    }

    /// The absolute value, in millionths.
    pub fn abs_micros(&self) -> (r: u128)
        ensures
            r == self.magnitude(),
    {
        if self.micros < 0 {
            ((-(self.micros + 1)) as u128) + 1
        } else {
            self.micros as u128
        }
    }

    /// How far two numbers are apart, in millionths.
    pub fn distance(&self, other: &Number) -> (r: u128)
        ensures
            r == self.gap(*other),
    {
        let (hi, lo) = if self.micros >= other.micros {
            (self.micros, other.micros)
        } else {
            (other.micros, self.micros)
        };
        if lo >= 0 || hi < 0 {
            (hi - lo) as u128
        } else {
            (hi as u128) + (((-(lo + 1)) as u128) + 1)
        }
    }

    fn push_sign_and_whole(&self, out: &mut String)
        ensures
            final(out)@ == old(out)@ + self.sign_text() + decimal(self.magnitude() / 1_000_000),
    {
        if self.micros < 0 {
            out.push('-');
            assert(old(out)@.push('-') == old(out)@ + self.sign_text());
        } else {
            assert(old(out)@ == old(out)@ + self.sign_text());
        }
        push_decimal(out, self.abs_micros() / 1_000_000);
    }

    fn fraction_digits(&self) -> (r: Vec<char>)
        ensures
            r@ == trim_zeros(six_digits(self.magnitude() % 1_000_000)),
    {
        let frac: u128 = self.abs_micros() % 1_000_000;
        let mut digits: Vec<char> = Vec::new();
        digits.push(digit_to_char((frac / 100_000 % 10) as u8));
        digits.push(digit_to_char((frac / 10_000 % 10) as u8));
        digits.push(digit_to_char((frac / 1_000 % 10) as u8));
        digits.push(digit_to_char((frac / 100 % 10) as u8));
        digits.push(digit_to_char((frac / 10 % 10) as u8));
        digits.push(digit_to_char((frac % 10) as u8));
        assert(digits@ == six_digits(frac as nat));
        while digits.len() > 0 && digits[digits.len() - 1] == '0'
            invariant
                trim_zeros(digits@) == trim_zeros(six_digits(frac as nat)),
            decreases digits.len(),
        {
            digits.pop();
        }
        digits
    }

    /// Renders the number in its shortest decimal form.
    pub fn to_text(&self) -> (r: String)
        ensures
            r@ == self.text(),
    {
        let mut out = String::new();
        self.push_sign_and_whole(&mut out);
        let frac = self.fraction_digits();
        if frac.len() > 0 {
            out.push('.');
            push_chars(&mut out, &frac);
        }
        proof {
            let head = self.sign_text() + decimal(self.magnitude() / 1_000_000);
            assert(Seq::<char>::empty() + self.sign_text() + decimal(
                self.magnitude() / 1_000_000,
            ) == head);
            if frac.len() > 0 {
                assert(head.push('.') + frac@ == head + (seq!['.'] + frac@));
            } else {
                assert(head == head + Seq::<char>::empty());
            }
        }
        out
    }

    /// Renders the number with a fraction in any case.
    pub fn to_debug_text(&self) -> (r: String)
        ensures
            r@ == self.debug_text(),
    {
        let mut out = String::new();
        self.push_sign_and_whole(&mut out);
        let frac = self.fraction_digits();
        out.push('.');
        if frac.len() > 0 {
            push_chars(&mut out, &frac);
        } else {
            out.push('0');
        }
        proof {
            let head = self.sign_text() + decimal(self.magnitude() / 1_000_000);
            assert(Seq::<char>::empty() + self.sign_text() + decimal(
                self.magnitude() / 1_000_000,
            ) == head);
            if frac.len() > 0 {
                assert(head.push('.') + frac@ == head + seq!['.'] + frac@);
            } else {
                assert(head.push('.').push('0') == head + seq!['.'] + seq!['0']);
            }
        }
        out
    }

    /// Renders the number with one fractional digit.
    pub fn to_fixed_text(&self) -> (r: String)
        ensures
            r@ == self.fixed_text(),
    {
        let tenths: u128 = (self.abs_micros() + 50_000) / 100_000;
        let mut out = String::new();
        if self.micros < 0 {
            out.push('-');
        }
        let ghost sign = out@;
        assert(sign == self.sign_text());
        push_decimal(&mut out, tenths / 10);
        out.push('.');
        out.push(digit_to_char((tenths % 10) as u8));
        proof {
            let whole = decimal((tenths / 10) as nat);
            assert((sign + whole).push('.').push(digit_char((tenths % 10) as nat)) == sign + whole
                + seq!['.', digit_char((tenths % 10) as nat)]);
        }
        out
    }
}

} // verus!
