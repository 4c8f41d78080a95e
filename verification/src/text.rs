//! Text of a fixed-width field: trimming, and the syntax of the numbers that
//! stand in such fields.
//!
//! Text is a sequence of bytes. White space is the space and the five ASCII
//! control characters from tab to carriage return; a digit is one of `0` to
//! `9`.

use vstd::prelude::*;
use vstd::slice::slice_subrange;

verus! {

/// Whether `b` is white space: a space, or one of tab, line feed, vertical
/// tab, form feed and carriage return.
pub open spec fn is_space(b: u8) -> bool {
    b == 32 || (9 <= b && b <= 13)
}

/// Whether `b` is a decimal digit.
pub open spec fn is_digit(b: u8) -> bool {
    48 <= b && b <= 57
}

/// The number that the digit `b` stands for.
pub open spec fn digit_of(b: u8) -> nat {
    if is_digit(b) {
        (b - 48) as nat
    } else {
        0
    }
}

/// Index of the first byte at or after `from` that is not white space; the
/// length of `s` where there is none.
pub open spec fn first_non_space(s: Seq<u8>, from: int) -> int
    decreases s.len() - from,
{
    if 0 <= from < s.len() && is_space(s[from]) {
        first_non_space(s, from + 1)
    } else {
        from
    }
}

/// Index just behind the last byte before `to` that is not white space,
/// looking no further back than `from`.
pub open spec fn last_non_space(s: Seq<u8>, from: int, to: int) -> int
    decreases to - from,
{
    if from < to <= s.len() && is_space(s[to - 1]) {
        last_non_space(s, from, to - 1)
    } else {
        to
    }
}

/// `s` without the white space at its two ends.
pub open spec fn trimmed(s: Seq<u8>) -> Seq<u8> {
    let from = first_non_space(s, 0);
    s.subrange(from, last_non_space(s, from, s.len() as int))
}

/// The field of `line` in the columns from `from` up to `to`, without the
/// white space around it.
pub open spec fn column(line: Seq<u8>, from: int, to: int) -> Seq<u8> {
    trimmed(line.subrange(from, to))
}

/// Index of the first byte at or after `from` that is no digit; the length
/// of `s` where there is none.
pub open spec fn digit_run(s: Seq<u8>, from: int) -> int
    decreases s.len() - from,
{
    if 0 <= from < s.len() && is_digit(s[from]) {
        digit_run(s, from + 1)
    } else {
        from
    }
}

/// The number written by the digits of `acc` followed by the digits `s`.
pub open spec fn append_digits(acc: nat, s: Seq<u8>) -> nat
    decreases s.len(),
{
    if s.len() == 0 {
        acc
    } else {
        append_digits(acc, s.drop_last()) * 10 + digit_of(s.last())
    }
}

/// Index of the first digit of a number: behind a leading `+`, or behind a
/// leading `-` where `minus` allows one.
pub open spec fn after_sign(s: Seq<u8>, minus: bool) -> int {
    if s.len() > 0 && (s[0] == 43 || (minus && s[0] == 45)) {
        1
    } else {
        0
    }
}

/// The unsigned integer that `s` writes: an optional `+`, then one digit or
/// more and nothing else, the number no greater than `u32::MAX`. `None` for
/// any other text.
pub open spec fn unsigned_of(s: Seq<u8>) -> Option<u32> {
    let start = after_sign(s, false);
    let value = append_digits(0, s.subrange(start, s.len() as int));
    if start < s.len() && digit_run(s, start) == s.len() && value <= u32::MAX {
        Some(value as u32)
    } else {
        None
    }
}

/// A decimal number: `digits` times ten to the power `exponent - scale`,
/// negated where `negative` is set. `scale` counts the digits written behind
/// the point, `exponent` is the power of ten written after an `e`, 0 where
/// there is none. `-0.015` is `digits` 15 with `scale` 3; `2.5e3` is `digits`
/// 25 with `scale` 1 and `exponent` 3.
#[derive(Clone, Copy, Debug, PartialEq, Eq)]
pub struct Decimal {
    pub negative: bool,
    pub digits: u64,
    pub scale: usize,
    pub exponent: i64,
}

/// What a field for a real number may hold: a decimal number, or one of the
/// words for infinity and for what is no number.
#[derive(Clone, Copy, Debug, PartialEq, Eq)]
pub enum Real {
    Finite(Decimal),
    Infinite { negative: bool },
    NotANumber,
}

/// `b` as a small letter where it is a capital letter, else `b`.
pub open spec fn lower(b: u8) -> u8 {
    if 65 <= b && b <= 90 {
        (b + 32) as u8
    } else {
        b
    }
}

/// Whether `s` is `inf` or `infinity`, in small or capital letters.
pub open spec fn spells_infinity(s: Seq<u8>) -> bool {
    ||| (s.len() == 3 && lower(s[0]) == 105 && lower(s[1]) == 110 && lower(s[2]) == 102)
    ||| (s.len() == 8 && lower(s[0]) == 105 && lower(s[1]) == 110 && lower(s[2]) == 102 && lower(
        s[3],
    ) == 105 && lower(s[4]) == 110 && lower(s[5]) == 105 && lower(s[6]) == 116 && lower(s[7])
        == 121)
}

/// Whether `s` is `nan`, in small or capital letters.
pub open spec fn spells_nan(s: Seq<u8>) -> bool {
    s.len() == 3 && lower(s[0]) == 110 && lower(s[1]) == 97 && lower(s[2]) == 110
}

/// Whether `s` has a sign at `at`.
pub open spec fn sign_at(s: Seq<u8>, at: int) -> bool {
    0 <= at < s.len() && (s[at] == 43 || s[at] == 45)
}

/// The decimal number that `s` writes: an optional sign; digits, and
/// optionally a point and more digits, with a digit on at least one side of
/// the point; and optionally an `e` or `E`, an optional sign and one digit or
/// more. `digits` holds the digits of both sides of the point and has to fit
/// in 64 bits, and so has the exponent with its sign. `None` for any other
/// text.
pub open spec fn decimal_of(s: Seq<u8>) -> Option<Decimal> {
    let start = after_sign(s, true);
    let point = digit_run(s, start);
    let has_point = point < s.len() && s[point] == 46;
    let fraction = if has_point {
        point + 1
    } else {
        point
    };
    let end = digit_run(s, fraction);
    let digits = append_digits(
        append_digits(0, s.subrange(start, point)),
        s.subrange(fraction, end),
    );
    let has_exponent = end < s.len() && (s[end] == 101 || s[end] == 69);
    let power = if !has_exponent {
        end
    } else if sign_at(s, end + 1) {
        end + 2
    } else {
        end + 1
    };
    let stop = digit_run(s, power);
    let magnitude = append_digits(0, s.subrange(power, stop));
    let exponent: int = if has_exponent && s[end + 1] == 45 {
        -(magnitude as int)
    } else {
        magnitude as int
    };
    if stop == s.len() && (point - start) + (end - fraction) >= 1 && (has_exponent ==> stop
        > power) && digits <= u64::MAX && magnitude <= i64::MAX {
        Some(
            Decimal {
                negative: s.len() > 0 && s[0] == 45,
                digits: digits as u64,
                scale: (end - fraction) as usize,
                exponent: exponent as i64,
            },
        )
    } else {
        None
    }
}

/// The number that `s` writes: behind an optional sign one of the words
/// `inf`, `infinity` and `nan`, in small or capital letters, or else a
/// decimal number as [`decimal_of`] reads it. `None` for any other text.
pub open spec fn real_of(s: Seq<u8>) -> Option<Real> {
    let word = s.subrange(after_sign(s, true), s.len() as int);
    if spells_infinity(word) {
        Some(Real::Infinite { negative: s[0] == 45 })
    } else if spells_nan(word) {
        Some(Real::NotANumber)
    } else {
        match decimal_of(s) {
            Some(d) => Some(Real::Finite(d)),
            None => None,
        }
    }
}

/// The white space that [`first_non_space`] passes over, and where it stops.
pub proof fn first_non_space_stops(s: Seq<u8>, from: int)
    requires
        0 <= from <= s.len(),
    ensures
        from <= first_non_space(s, from) <= s.len(),
        forall|i: int| from <= i < first_non_space(s, from) ==> is_space(#[trigger] s[i]),
        first_non_space(s, from) < s.len() ==> !is_space(s[first_non_space(s, from)]),
    decreases s.len() - from,
{
    if from < s.len() && is_space(s[from]) {
        first_non_space_stops(s, from + 1);
    }
}

/// The white space that [`last_non_space`] passes over, and where it stops.
pub proof fn last_non_space_stops(s: Seq<u8>, from: int, to: int)
    requires
        0 <= from <= to <= s.len(),
    ensures
        from <= last_non_space(s, from, to) <= to,
        forall|i: int| last_non_space(s, from, to) <= i < to ==> is_space(#[trigger] s[i]),
        last_non_space(s, from, to) > from ==> !is_space(s[last_non_space(s, from, to) - 1]),
    decreases to - from,
{
    if from < to && is_space(s[to - 1]) {
        last_non_space_stops(s, from, to - 1);
    }
}

/// Trimmed text is a stretch of the text with nothing but white space before
/// and behind it, and it neither begins nor ends with white space.
pub proof fn trimmed_is_bare(s: Seq<u8>)
    ensures
        ({
            let from = first_non_space(s, 0);
            let to = last_non_space(s, from, s.len() as int);
            &&& 0 <= from <= to <= s.len()
            &&& trimmed(s) == s.subrange(from, to)
            &&& forall|i: int| 0 <= i < from ==> is_space(#[trigger] s[i])
            &&& forall|i: int| to <= i < s.len() ==> is_space(#[trigger] s[i])
        }),
        trimmed(s).len() > 0 ==> !is_space(trimmed(s).first()) && !is_space(trimmed(s).last()),
{
    first_non_space_stops(s, 0);
    let from = first_non_space(s, 0);
    last_non_space_stops(s, from, s.len() as int);
}

/// Text without white space at its ends is left as it is.
pub proof fn bare_text_stays(s: Seq<u8>)
    requires
        s.len() > 0 ==> !is_space(s.first()) && !is_space(s.last()),
    ensures
        trimmed(s) == s,
{
    assert(s.subrange(0, s.len() as int) =~= s);
}

/// Trimming twice is trimming once.
pub proof fn trimmed_twice(s: Seq<u8>)
    ensures
        trimmed(trimmed(s)) == trimmed(s),
{
    trimmed_is_bare(s);
    bare_text_stays(trimmed(s));
}

/// The digits that [`digit_run`] passes over, and where it stops.
pub proof fn digit_run_stops(s: Seq<u8>, from: int)
    requires
        0 <= from <= s.len(),
    ensures
        from <= digit_run(s, from) <= s.len(),
        forall|i: int| from <= i < digit_run(s, from) ==> is_digit(#[trigger] s[i]),
        digit_run(s, from) < s.len() ==> !is_digit(s[digit_run(s, from)]),
    decreases s.len() - from,
{
    if from < s.len() && is_digit(s[from]) {
        digit_run_stops(s, from + 1);
    }
}

/// An unsigned integer is written in digits alone, behind at most a `+`, and
/// with one digit at least.
pub proof fn unsigned_is_all_digits(s: Seq<u8>)
    requires
        unsigned_of(s) is Some,
    ensures
        after_sign(s, false) < s.len(),
        forall|i: int| after_sign(s, false) <= i < s.len() ==> is_digit(#[trigger] s[i]),
{
    digit_run_stops(s, after_sign(s, false));
}

/// More digits never make a number smaller.
proof fn append_digits_grows(acc: nat, s: Seq<u8>)
    ensures
        append_digits(acc, s) >= acc,
    decreases s.len(),
{
    if s.len() > 0 {
        append_digits_grows(acc, s.drop_last());
    }
}

fn is_space_byte(b: u8) -> (r: bool)
    ensures
        r == is_space(b),
{
    b == 32 || (9 <= b && b <= 13)
}

/// The text without the white space at its two ends.
pub fn trim<'a>(text: &'a [u8]) -> (r: &'a [u8])
    ensures
        r@ == trimmed(text@),
{
    let n: usize = text.len();
    let mut from: usize = 0;
    while from < n && is_space_byte(text[from])
        invariant
            n == text@.len(),
            from <= n,
            first_non_space(text@, from as int) == first_non_space(text@, 0),
        decreases n - from,
    {
        from += 1;
    }
    let mut to: usize = n;
    while to > from && is_space_byte(text[to - 1])
        invariant
            n == text@.len(),
            from <= to <= n,
            last_non_space(text@, from as int, to as int) == last_non_space(
                text@,
                from as int,
                n as int,
            ),
        decreases to,
    {
        to -= 1;
    }
    slice_subrange(text, from, to)
}

/// Reads digits from `start` on, as far as they go, behind a number `acc`
/// read before. Returns where they end, and the number while it fits in 64
/// bits.
fn scan_digits(text: &[u8], start: usize, acc: u64) -> (r: (usize, Option<u64>))
    requires
        start <= text@.len(),
    ensures
        start <= r.0 <= text@.len(),
        r.0 == digit_run(text@, start as int),
        r.1 == (if append_digits(acc as nat, text@.subrange(start as int, r.0 as int))
            <= u64::MAX {
            Some(append_digits(acc as nat, text@.subrange(start as int, r.0 as int)) as u64)
        } else {
            None::<u64>
        }),
{
    let n: usize = text.len();
    let mut i: usize = start;
    let mut value: u64 = acc;
    let mut fits: bool = true;
    while i < n && 48 <= text[i] && text[i] <= 57
        invariant
            n == text@.len(),
            start <= i <= n,
            digit_run(text@, i as int) == digit_run(text@, start as int),
            fits ==> value == append_digits(acc as nat, text@.subrange(start as int, i as int)),
            !fits ==> append_digits(acc as nat, text@.subrange(start as int, i as int))
                > u64::MAX,
        decreases n - i,
    {
        let d: u64 = (text[i] - 48) as u64;
        proof {
            let longer = text@.subrange(start as int, i + 1);
            assert(longer.drop_last() =~= text@.subrange(start as int, i as int));
            assert(longer.last() == text@[i as int]);
        }
        if fits {
            if value > (u64::MAX - d) / 10 {
                fits = false;
            } else {
                value = value * 10 + d;
            }
        }
        i += 1;
    }
    if fits {
        (i, Some(value))
    } else {
        (i, None)
    }
}

/// Reads an unsigned integer: an optional `+`, then digits and nothing else.
/// `None` where the text is anything else, or the number is too great for 32
/// bits.
pub fn parse_unsigned(text: &[u8]) -> (r: Option<u32>)
    ensures
        r == unsigned_of(text@),
{
    let n: usize = text.len();
    let start: usize = if n > 0 && text[0] == 43 {
        1
    } else {
        0
    };
    let (end, value) = scan_digits(text, start, 0);
    if start < n && end == n {
        match value {
            Some(v) => if v <= 0xffff_ffff {
                Some(v as u32)
            } else {
                None
            },
            None => None,
        }
    } else {
        None
    }
}

/// Reads a decimal number: an optional sign, digits with or without a point,
/// and optionally an exponent. `None` where the text is anything else, or
/// its digits or its exponent do not fit in 64 bits.
pub fn parse_decimal(text: &[u8]) -> (r: Option<Decimal>)
    ensures
        r == decimal_of(text@),
{
    let n: usize = text.len();
    let negative: bool = n > 0 && text[0] == 45;
    let start: usize = if n > 0 && (text[0] == 43 || text[0] == 45) {
        1
    } else {
        0
    };
    let (point, whole) = scan_digits(text, start, 0);
    let fraction: usize = if point < n && text[point] == 46 {
        point + 1
    } else {
        point
    };
    let w: u64 = match whole {
        Some(w) => w,
        None => {
            proof {
                append_digits_grows(
                    append_digits(0, text@.subrange(start as int, point as int)),
                    text@.subrange(fraction as int, digit_run(text@, fraction as int)),
                );
            }
            return None;
        },
    };
    let (end, all) = scan_digits(text, fraction, w);
    let has_exponent: bool = end < n && (text[end] == 101 || text[end] == 69);
    let power: usize = if !has_exponent {
        end
    } else if end + 1 < n && (text[end + 1] == 43 || text[end + 1] == 45) {
        end + 2
    } else {
        end + 1
    };
    let (stop, magnitude) = scan_digits(text, power, 0);
    if stop == n && (point - start) + (end - fraction) >= 1 && (!has_exponent || stop > power) {
        match (all, magnitude) {
            (Some(digits), Some(m)) => {
                if m <= 0x7fff_ffff_ffff_ffff {
                    let exponent: i64 = if has_exponent && text[end + 1] == 45 {
                        -(m as i64)
                    } else {
                        m as i64
                    };
                    Some(Decimal { negative, digits, scale: end - fraction, exponent })
                } else {
                    None
                }
            },
            _ => None,
        }
    } else {
        None
    }
}

fn lower_byte(b: u8) -> (r: u8)
    ensures
        r == lower(b),
{
    if 65 <= b && b <= 90 {
        b + 32
    } else {
        b
    }
}

/// Reads a real number: a decimal number, or behind an optional sign one of
/// the words `inf`, `infinity` and `nan`.
pub fn parse_real(text: &[u8]) -> (r: Option<Real>)
    ensures
        r == real_of(text@),
{
    let n: usize = text.len();
    let start: usize = if n > 0 && (text[0] == 43 || text[0] == 45) {
        1
    } else {
        0
    };
    let word: &[u8] = slice_subrange(text, start, n);
    let inf: bool = word.len() >= 3 && lower_byte(word[0]) == 105 && lower_byte(word[1]) == 110
        && lower_byte(word[2]) == 102;
    if inf && word.len() == 3 {
        return Some(Real::Infinite { negative: text[0] == 45 });
    }
    if inf && word.len() == 8 && lower_byte(word[3]) == 105 && lower_byte(word[4]) == 110
        && lower_byte(word[5]) == 105 && lower_byte(word[6]) == 116 && lower_byte(word[7])
        == 121 {
        return Some(Real::Infinite { negative: text[0] == 45 });
    }
    if word.len() == 3 && lower_byte(word[0]) == 110 && lower_byte(word[1]) == 97 && lower_byte(
        word[2],
    ) == 110 {
        return Some(Real::NotANumber);
    }
    match parse_decimal(text) {
        Some(d) => Some(Real::Finite(d)),
        None => None,
    }
}

} // verus!
