//! Byte counts with a unit: `100MB`, `1.5GB`, `512b`.

use vstd::prelude::*;
use crate::error::{ArtaError, ErrorView};
use crate::number::{
    all_digits, copy_range, decimal_parts, digits_end, digits_value, lemma_scaled_floor_split,
    pow10, scale_decimal, scaled_floor, split_decimal,
};
use crate::text::{chars_of, is_digit, join, text_of, to_upper_char, upper_char};

verus! {

/// What is wrong with a byte count.
#[derive(Clone, Copy, Debug, PartialEq, Eq, Structural)]
pub enum SizeFault {
    /// It does not end in `B`, `KB`, `MB`, `GB` or `TB`.
    Unit,
    /// What stands before the unit is no decimal numeral.
    Number,
}

/// `1024` to the power of `k`, for the five units.
pub open spec fn unit_factor(k: nat) -> nat {
    if k == 0 {
        1
    } else if k == 1 {
        1024
    } else if k == 2 {
        1_048_576
    } else if k == 3 {
        1_073_741_824
    } else {
        1_099_511_627_776
    }
}

/// The power of 1024 that the unit at the end of `t` stands for, and the
/// length of that unit. Letters count in either case.
pub open spec fn unit_of(t: Seq<char>) -> Option<(nat, nat)> {
    let n = t.len() as int;
    if n >= 1 && upper_char(t[n - 1]) == 'B' {
        if n >= 2 && upper_char(t[n - 2]) == 'T' {
            Some((4, 2))
        } else if n >= 2 && upper_char(t[n - 2]) == 'G' {
            Some((3, 2))
        } else if n >= 2 && upper_char(t[n - 2]) == 'M' {
            Some((2, 2))
        } else if n >= 2 && upper_char(t[n - 2]) == 'K' {
            Some((1, 2))
        } else {
            Some((0, 1))
        }
    } else {
        None
    }
}

/// The bytes that a count with a unit stands for: the numeral times the
/// unit's power of 1024, rounded down, and `u64::MAX` where that is more.
pub open spec fn byte_count(t: Seq<char>) -> Result<u64, SizeFault> {
    match unit_of(t) {
        None => Err(SizeFault::Unit),
        Some((k, cut)) => match decimal_parts(t.take(t.len() - cut)) {
            None => Err(SizeFault::Number),
            Some((whole, frac)) => {
                let bytes = scaled_floor(whole, frac, unit_factor(k));
                if bytes > u64::MAX {
                    Ok(u64::MAX)
                } else {
                    Ok(bytes as u64)
                }
            },
        },
    }
}

/// The error that a faulty byte count is reported with.
pub open spec fn size_error(t: Seq<char>) -> ErrorView {
    match unit_of(t) {
        None => ErrorView::ParseError("Invalid size unit: "@ + t),
        Some((k, cut)) => ErrorView::ParseError(
            "Invalid size number: "@ + t.take(t.len() - cut),
        ),
    }
}

/// Reads a byte count with its unit.
pub fn read_size(t: &Vec<char>) -> (r: Result<u64, SizeFault>)
    ensures
        r == byte_count(t@),
{
    let n = t.len();
    if n == 0 || to_upper_char(t[n - 1]) != 'B' {
        return Err(SizeFault::Unit);
    }
    let before = if n >= 2 {
        to_upper_char(t[n - 2])
    } else {
        ' '
    };
    let (factor, cut): (u64, usize) = if before == 'T' {
        (1_099_511_627_776, 2)
    } else if before == 'G' {
        (1_073_741_824, 2)
    } else if before == 'M' {
        (1_048_576, 2)
    } else if before == 'K' {
        (1024, 2)
    } else {
        (1, 1)
    };
    let numeral = copy_range(t, 0, n - cut);
    assert(numeral@ == t@.take(t.len() - cut));
    match split_decimal(&numeral) {
        None => Err(SizeFault::Number),
        Some((whole, frac)) => match scale_decimal(&whole, &frac, factor) {
            None => {
                proof {
                    lemma_scaled_floor_split(whole@, frac@, factor as nat);
                    let w = digits_value(whole@) as int;
                    let f = factor as int;
                    assert(w * f >= w) by (nonlinear_arith)
                        requires
                            w >= 0,
                            f >= 1,
                    ;
                }
                Ok(u64::MAX)
            },
            Some(bytes) => if bytes > 0xffff_ffff_ffff_ffff {
                Ok(u64::MAX)
            } else {
                Ok(bytes as u64)
            },
        },
    }
}

/// Reads a byte count with its unit, as in `100MB`: a decimal numeral, then
/// one of `B`, `KB`, `MB`, `GB` and `TB` in either case. The count is the
/// numeral times the unit's power of 1024, rounded down.
pub fn parse_size_value(s: &str) -> (r: Result<u64, ArtaError>)
    ensures
        match byte_count(s@) {
            Ok(bytes) => r == Ok::<u64, ArtaError>(bytes),
            Err(_) => r is Err && r->Err_0@ == size_error(s@),
        },
{
    let t = chars_of(s);
    match read_size(&t) {
        Ok(bytes) => Ok(bytes),
        Err(SizeFault::Unit) => Err(ArtaError::ParseError(join("Invalid size unit: ", s))),
        Err(SizeFault::Number) => {
            let n = t.len();
            let cut: usize = if n >= 2 && (to_upper_char(t[n - 2]) == 'T' || to_upper_char(
                t[n - 2],
            ) == 'G' || to_upper_char(t[n - 2]) == 'M' || to_upper_char(t[n - 2]) == 'K') {
                2
            } else {
                1
            };
            let numeral = text_of(&copy_range(&t, 0, n - cut));
            assert(numeral@ == s@.take(s@.len() - cut));
            Err(ArtaError::ParseError(join("Invalid size number: ", numeral.as_str())))
        },
    }
}

/// The unit that stands for the power `k` of 1024, in capitals.
pub open spec fn unit_text(k: nat) -> Seq<char> {
    if k == 0 {
        seq!['B']
    } else if k == 1 {
        seq!['K', 'B']
    } else if k == 2 {
        seq!['M', 'B']
    } else if k == 3 {
        seq!['G', 'B']
    } else {
        seq!['T', 'B']
    }
}

/// The numeral with the digits `whole` before its point and, where there
/// are any, the digits `frac` after it.
pub open spec fn numeral(whole: Seq<char>, frac: Seq<char>) -> Seq<char> {
    if frac.len() == 0 {
        whole
    } else {
        whole + seq!['.'] + frac
    }
}

proof fn lemma_digits_end(s: Seq<char>, from: int, to: int)
    requires
        0 <= from <= to <= s.len(),
        forall|i: int| from <= i < to ==> is_digit(#[trigger] s[i]),
        to == s.len() || !is_digit(s[to]),
    ensures
        digits_end(s, from) == to,
    decreases to - from,
{
    if from < to {
        lemma_digits_end(s, from + 1, to);
    }
}

proof fn lemma_numeral_parts(whole: Seq<char>, frac: Seq<char>)
    requires
        whole.len() > 0,
        all_digits(whole),
        all_digits(frac),
    ensures
        decimal_parts(numeral(whole, frac)) == Some((whole, frac)),
{
    let t = numeral(whole, frac);
    if frac.len() == 0 {
        lemma_digits_end(t, 0, t.len() as int);
        assert(frac =~= Seq::empty());
    } else {
        let w = whole.len() as int;
        assert(t[w] == '.');
        assert forall|i: int| 0 <= i < w implies is_digit(#[trigger] t[i]) by {
            assert(t[i] == whole[i]);
        }
        lemma_digits_end(t, 0, w);
        assert forall|i: int| w + 1 <= i < t.len() implies is_digit(#[trigger] t[i]) by {
            assert(t[i] == frac[i - w - 1]);
        }
        lemma_digits_end(t, w + 1, t.len() as int);
        assert(t.take(w) =~= whole);
        assert(t.subrange(w + 1, t.len() as int) =~= frac);
    }
}

/// For each of the five units, a decimal numeral followed by the unit
/// stands for exactly the numeral times the unit's power of 1024, rounded
/// down where the numeral has a fraction; only a count beyond `u64::MAX` is
/// held at `u64::MAX`.
pub proof fn lemma_size_is_numeral_times_unit(whole: Seq<char>, frac: Seq<char>, k: nat)
    requires
        whole.len() > 0,
        all_digits(whole),
        all_digits(frac),
        k <= 4,
    ensures
        byte_count(numeral(whole, frac) + unit_text(k)) == Ok::<u64, SizeFault>(
            if (digits_value(whole + frac) * unit_factor(k)) / pow10(frac.len()) > u64::MAX {
                u64::MAX
            } else {
                ((digits_value(whole + frac) * unit_factor(k)) / pow10(frac.len())) as u64
            },
        ),
{
    let n = numeral(whole, frac);
    let t = n + unit_text(k);
    lemma_numeral_parts(whole, frac);
    let last = n[n.len() - 1];
    assert(is_digit(last)) by {
        if frac.len() == 0 {
            assert(last == whole[whole.len() - 1]);
        } else {
            assert(last == frac[frac.len() - 1]);
        }
    }
    let cut = unit_text(k).len();
    assert(t.take(t.len() - cut) =~= n);
    if k == 0 {
        assert(t[t.len() - 1] == 'B');
        assert(t[t.len() - 2] == last);
    } else {
        assert(t[t.len() - 1] == 'B');
        assert(t[t.len() - 2] == unit_text(k)[0]);
    }
}

} // verus!
