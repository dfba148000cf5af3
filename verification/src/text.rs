//! Decimal text: the notation in which configuration files, the sun-times
//! service and the display commands carry their numbers.
//!
//! Everything here is stated over `Seq<char>`, the view of a string. The
//! executable functions read ASCII bytes, which is sound because every
//! character of the notation is ASCII.

use vstd::prelude::*;
use vstd::string::is_ascii_spec_bytes;
use vstd::utf8::is_ascii_chars;

verus! {

/// `c` is one of the ten decimal digits.
pub open spec fn is_digit(c: char) -> bool {
    '0' <= c && c <= '9'
}

/// The number a decimal digit stands for.
pub open spec fn digit_value(c: char) -> nat
    recommends
        is_digit(c),
{
    (c as int - 48) as nat
}

/// The decimal digit that stands for `d`.
pub open spec fn digit_char(d: nat) -> char
    recommends
        d < 10,
{
    (d + 48) as char
}

/// A digit stands for the number it was written for.
pub proof fn lemma_digit_char(d: nat)
    requires
        d < 10,
    ensures
        is_digit(digit_char(d)),
        digit_value(digit_char(d)) == d,
{
}

/// Every character of `s` is a decimal digit.
pub open spec fn all_digits(s: Seq<char>) -> bool {
    forall|i: int| 0 <= i < s.len() ==> is_digit(#[trigger] s[i])
}

/// The number that a run of digits denotes, most significant digit first.
/// The empty run denotes zero.
pub open spec fn digits_value(s: Seq<char>) -> nat
    decreases s.len(),
{
    if s.len() == 0 {
        0
    } else {
        digits_value(s.drop_last()) * 10 + digit_value(s.last())
    }
}

/// Whether `s` starts with a minus sign, and what follows its sign if it has
/// one (`+` or `-`).
pub open spec fn strip_sign(s: Seq<char>) -> (bool, Seq<char>) {
    if s.len() > 0 && s[0] == '-' {
        (true, s.subrange(1, s.len() as int))
    } else if s.len() > 0 && s[0] == '+' {
        (false, s.subrange(1, s.len() as int))
    } else {
        (false, s)
    }
}

/// The integer that `s` denotes: an optional sign followed by one or more
/// digits and nothing else. `None` for any other text.
pub open spec fn integer_text_value(s: Seq<char>) -> Option<int> {
    let (negative, digits) = strip_sign(s);
    if digits.len() > 0 && all_digits(digits) {
        if negative {
            Some(-(digits_value(digits) as int))
        } else {
            Some(digits_value(digits) as int)
        }
    } else {
        None
    }
}

/// The `i64` that `s` denotes, `None` where `s` is no integer or the integer
/// does not fit.
pub open spec fn i64_text_value(s: Seq<char>) -> Option<i64> {
    match integer_text_value(s) {
        Some(v) => if i64::MIN <= v <= i64::MAX {
            Some(v as i64)
        } else {
            None
        },
        None => None,
    }
}

/// A run of digits denotes at least what any of its prefixes denotes.
pub proof fn lemma_digits_value_prefix(s: Seq<char>, k: int)
    requires
        all_digits(s),
        0 <= k <= s.len(),
    ensures
        digits_value(s.take(k)) <= digits_value(s),
    decreases s.len() - k,
{
    if k == s.len() {
        assert(s.take(k) =~= s);
    } else {
        lemma_digits_value_prefix(s, k + 1);
        assert(s.take(k + 1).drop_last() =~= s.take(k));
    }
}

/// Text that denotes an integer is ASCII.
pub proof fn lemma_integer_text_is_ascii(s: Seq<char>)
    requires
        integer_text_value(s) is Some,
    ensures
        is_ascii_chars(s),
{
    let digits = strip_sign(s).1;
    let start: int = s.len() - digits.len();
    assert forall|i: int| 0 <= i < s.len() implies '\0' <= #[trigger] s[i] <= '\u{7f}' by {
        if i >= start {
            assert(is_digit(digits[i - start]));
        }
    }
}

/// `bytes` holds the characters of `s`, one for one.
pub open spec fn same_text(bytes: Seq<u8>, s: Seq<char>) -> bool {
    &&& bytes.len() == s.len()
    &&& forall|i: int| 0 <= i < bytes.len() ==> #[trigger] bytes[i] as int == s[i] as int
}

/// The bytes of `s` where `s` is ASCII, in which case they are its
/// characters one for one.
pub fn ascii_bytes(s: &str) -> (r: Option<&[u8]>)
    ensures
        match r {
            Some(bytes) => same_text(bytes@, s@),
            None => !is_ascii_chars(s@),
        },
{
    if s.is_ascii() {
        let bytes = s.as_bytes();
        proof {
            is_ascii_spec_bytes(s);
        }
        Some(bytes)
    } else {
        None
    }
}

/// Reads the digits `bytes[from..to]`. Returns their value where all of them
/// are digits and the value is at most `limit`.
fn read_digits(bytes: &[u8], Ghost(s): Ghost<Seq<char>>, from: usize, to: usize, limit: u64) -> (r:
    Option<u64>)
    requires
        same_text(bytes@, s),
        from <= to <= bytes@.len(),
    ensures
        r == if all_digits(s.subrange(from as int, to as int)) && digits_value(
            s.subrange(from as int, to as int),
        ) <= limit {
            Some(digits_value(s.subrange(from as int, to as int)) as u64)
        } else {
            None
        },
{
    let ghost digits: Seq<char> = s.subrange(from as int, to as int);
    let mut acc: u64 = 0;
    let mut i: usize = from;
    while i < to
        invariant
            from <= i <= to <= bytes@.len(),
            same_text(bytes@, s),
            digits == s.subrange(from as int, to as int),
            all_digits(digits.take(i - from)),
            acc == digits_value(digits.take(i - from)),
            acc <= limit,
        decreases to - i,
    {
        let b: u8 = bytes[i];
        let ghost k: int = i - from;
        if b < 48 || b > 57 {
            assert(!is_digit(digits[k]));
            return None;
        }
        assert(digits.take(k + 1).drop_last() =~= digits.take(k));
        let next: u128 = acc as u128 * 10 + (b - 48) as u128;
        if next > limit as u128 {
            proof {
                if all_digits(digits) {
                    lemma_digits_value_prefix(digits, k + 1);
                }
            }
            return None;
        }
        acc = next as u64;
        i += 1;
    }
    assert(digits.take(to - from) =~= digits);
    Some(acc)
}

/// Reads a decimal integer: an optional `+` or `-`, then digits only.
/// Returns `None` for any other text and for a number outside `i64`.
pub fn parse_i64(s: &str) -> (r: Option<i64>)
    ensures
        r == i64_text_value(s@),
{
    let bytes = match ascii_bytes(s) {
        Some(b) => b,
        None => {
            proof {
                if integer_text_value(s@) is Some {
                    lemma_integer_text_is_ascii(s@);
                }
            }
            return None;
        },
    };
    let n: usize = bytes.len();
    if n == 0 {
        return None;
    }
    let negative: bool = bytes[0] == 45;
    let start: usize = if bytes[0] == 45 || bytes[0] == 43 {
        1
    } else {
        0
    };
    assert(strip_sign(s@).1 =~= s@.subrange(start as int, n as int));
    if start == n {
        return None;
    }
    match read_digits(bytes, Ghost(s@), start, n, 9223372036854775808) {
        None => None,
        Some(magnitude) => {
            if negative {
                Some((-(magnitude as i128)) as i64)
            } else if magnitude > 9223372036854775807 {
                None
            } else {
                Some(magnitude as i64)
            }
        },
    }
}

/// `n` in decimal digits, with zeros in front where it has fewer than
/// `width` of them.
pub open spec fn padded_digits(n: nat, width: nat) -> Seq<char>
    decreases n, width,
{
    if n < 10 && width <= 1 {
        seq![digit_char(n)]
    } else {
        padded_digits(
            n / 10,
            if width > 0 {
                (width - 1) as nat
            } else {
                0
            },
        ) + seq![digit_char(n % 10)]
    }
}

/// The decimal notation of `v`: a minus sign where it is negative, then its
/// digits with no zero in front.
pub open spec fn integer_text(v: int) -> Seq<char> {
    if v < 0 {
        seq!['-'] + padded_digits((-v) as nat, 1)
    } else {
        padded_digits(v as nat, 1)
    }
}

/// What `padded_digits` writes is a run of at least `width` digits, and at
/// least one, that denotes `n`.
pub proof fn lemma_padded_digits(n: nat, width: nat)
    ensures
        all_digits(padded_digits(n, width)),
        digits_value(padded_digits(n, width)) == n,
        padded_digits(n, width).len() >= 1,
        padded_digits(n, width).len() >= width,
    decreases n, width,
{
    let p = padded_digits(n, width);
    if n < 10 && width <= 1 {
        assert(p.drop_last() =~= Seq::<char>::empty());
        assert(digits_value(Seq::<char>::empty()) == 0);
    } else {
        let w: nat = if width > 0 {
            (width - 1) as nat
        } else {
            0
        };
        let q = padded_digits(n / 10, w);
        lemma_padded_digits(n / 10, w);
        assert(p.drop_last() =~= q);
        assert forall|i: int| 0 <= i < p.len() implies is_digit(#[trigger] p[i]) by {}
    }
}

/// Reading back the notation of an integer gives that integer.
pub proof fn lemma_integer_text_round_trip(v: int)
    ensures
        integer_text_value(integer_text(v)) == Some(v),
{
    let t = integer_text(v);
    if v < 0 {
        let p = padded_digits((-v) as nat, 1);
        lemma_padded_digits((-v) as nat, 1);
        assert(t.subrange(1, t.len() as int) =~= p);
    } else {
        lemma_padded_digits(v as nat, 1);
    }
}

/// One decimal digit as text.
fn digit_str(d: u8) -> (r: &'static str)
    requires
        d < 10,
    ensures
        r@ == seq![digit_char(d as nat)],
{
    proof {
        reveal_strlit("0");
        reveal_strlit("1");
        reveal_strlit("2");
        reveal_strlit("3");
        reveal_strlit("4");
        reveal_strlit("5");
        reveal_strlit("6");
        reveal_strlit("7");
        reveal_strlit("8");
        reveal_strlit("9");
    }
    let r: &'static str = match d {
        0 => "0",
        1 => "1",
        2 => "2",
        3 => "3",
        4 => "4",
        5 => "5",
        6 => "6",
        7 => "7",
        8 => "8",
        _ => "9",
    };
    r
}

/// Appends `n` in decimal digits to `out`, with zeros in front where it has
/// fewer than `width` of them.
pub fn push_digits(out: &mut String, n: u64, width: usize)
    ensures
        final(out)@ == old(out)@ + padded_digits(n as nat, width as nat),
    decreases n, width,
{
    if n >= 10 || width > 1 {
        let w: usize = if width > 0 {
            width - 1
        } else {
            0
        };
        push_digits(out, n / 10, w);
    }
    out.append(digit_str((n % 10) as u8));
}

/// Writes `v` in decimal notation.
pub fn i64_to_text(v: i64) -> (r: String)
    ensures
        r@ == integer_text(v as int),
{
    let mut out = String::new();
    if v < 0 {
        proof {
            reveal_strlit("-");
        }
        out.append("-");
        push_digits(&mut out, (-(v as i128)) as u64, 1);
    } else {
        push_digits(&mut out, v as u64, 1);
    }
    out
}

/// Where the whole part of an unsigned fixed-point text ends, and the count
/// of hundredths that its digits behind the point denote: a point with one or
/// two digits behind it, or no point at all. `None` where a point in one of
/// the last places is not followed by digits only.
pub open spec fn fraction_of(body: Seq<char>) -> Option<(int, nat)> {
    let len: int = body.len() as int;
    if len >= 2 && body[len - 2] == '.' {
        if is_digit(body[len - 1]) {
            Some((len - 2, digit_value(body[len - 1]) * 10))
        } else {
            None
        }
    } else if len >= 3 && body[len - 3] == '.' {
        if is_digit(body[len - 2]) && is_digit(body[len - 1]) {
            Some((len - 3, digit_value(body[len - 2]) * 10 + digit_value(body[len - 1])))
        } else {
            None
        }
    } else {
        Some((len, 0))
    }
}

/// The count of hundredths that an unsigned fixed-point text denotes: digits,
/// then optionally a point and one or two more digits.
pub open spec fn hundredths_magnitude(body: Seq<char>) -> Option<nat> {
    match fraction_of(body) {
        Some((whole_len, fraction)) => {
            let whole = body.take(whole_len);
            if whole.len() > 0 && all_digits(whole) {
                Some(digits_value(whole) * 100 + fraction)
            } else {
                None
            }
        },
        None => None,
    }
}

/// The count of hundredths that `s` denotes: an optional sign, digits, and
/// optionally a point with one or two digits behind it. `None` for any other
/// text.
pub open spec fn hundredths_text_value(s: Seq<char>) -> Option<int> {
    let (negative, body) = strip_sign(s);
    match hundredths_magnitude(body) {
        Some(m) => if negative {
            Some(-(m as int))
        } else {
            Some(m as int)
        },
        None => None,
    }
}

/// The count of hundredths that `s` denotes where it fits an `i64`.
pub open spec fn i64_hundredths_text_value(s: Seq<char>) -> Option<i64> {
    match hundredths_text_value(s) {
        Some(v) => if i64::MIN <= v <= i64::MAX {
            Some(v as i64)
        } else {
            None
        },
        None => None,
    }
}

/// Text that denotes a count of hundredths is ASCII.
pub proof fn lemma_hundredths_text_is_ascii(s: Seq<char>)
    requires
        hundredths_text_value(s) is Some,
    ensures
        is_ascii_chars(s),
{
    let body = strip_sign(s).1;
    let start: int = s.len() - body.len();
    let whole = body.take(fraction_of(body).unwrap().0);
    assert forall|i: int| 0 <= i < s.len() implies '\0' <= #[trigger] s[i] <= '\u{7f}' by {
        if i >= start {
            let j: int = i - start;
            if j < whole.len() {
                assert(is_digit(whole[j]));
            }
        }
    }
}

/// Finds where the whole part of the unsigned fixed-point text
/// `bytes[start..]` ends, and reads the digits behind its point.
fn read_fraction(bytes: &[u8], Ghost(s): Ghost<Seq<char>>, start: usize) -> (r: Option<
    (usize, u64),
>)
    requires
        same_text(bytes@, s),
        start <= bytes@.len(),
    ensures
        match r {
            Some((whole_end, fraction)) => {
                &&& start <= whole_end <= bytes@.len()
                &&& fraction < 100
                &&& fraction_of(s.subrange(start as int, s.len() as int)) == Some(
                    (whole_end - start, fraction as nat),
                )
            },
            None => fraction_of(s.subrange(start as int, s.len() as int)) is None,
        },
{
    let n: usize = bytes.len();
    let len: usize = n - start;
    if len >= 2 && bytes[n - 2] == 46 {
        let d: u8 = bytes[n - 1];
        if d < 48 || d > 57 {
            return None;
        }
        Some((n - 2, (d - 48) as u64 * 10))
    } else if len >= 3 && bytes[n - 3] == 46 {
        let d1: u8 = bytes[n - 2];
        let d2: u8 = bytes[n - 1];
        if d1 < 48 || d1 > 57 || d2 < 48 || d2 > 57 {
            return None;
        }
        Some((n - 3, (d1 - 48) as u64 * 10 + (d2 - 48) as u64))
    } else {
        Some((n, 0))
    }
}

/// Reads a fixed-point number with at most two digits behind the point, as a
/// count of hundredths. Returns `None` for any other text and for a count
/// outside `i64`.
pub fn parse_hundredths(s: &str) -> (r: Option<i64>)
    ensures
        r == i64_hundredths_text_value(s@),
{
    let bytes = match ascii_bytes(s) {
        Some(b) => b,
        None => {
            proof {
                if hundredths_text_value(s@) is Some {
                    lemma_hundredths_text_is_ascii(s@);
                }
            }
            return None;
        },
    };
    let n: usize = bytes.len();
    if n == 0 {
        return None;
    }
    let negative: bool = bytes[0] == 45;
    let start: usize = if bytes[0] == 45 || bytes[0] == 43 {
        1
    } else {
        0
    };
    let ghost body: Seq<char> = strip_sign(s@).1;
    let (whole_end, fraction): (usize, u64) = match read_fraction(bytes, Ghost(s@), start) {
        Some(found) => found,
        None => {
            return None;
        },
    };
    let ghost whole: Seq<char> = body.take(whole_end - start);
    assert(whole =~= s@.subrange(start as int, whole_end as int));
    if whole_end == start {
        return None;
    }
    match read_digits(bytes, Ghost(s@), start, whole_end, 100000000000000000) {
        None => None,
        Some(units) => {
            let magnitude: u128 = units as u128 * 100 + fraction as u128;
            if negative {
                if magnitude > 9223372036854775808 {
                    None
                } else {
                    Some((-(magnitude as i128)) as i64)
                }
            } else if magnitude > 9223372036854775807 {
                None
            } else {
                Some(magnitude as i64)
            }
        },
    }
}

/// The fixed-point notation of a count of hundredths: a minus sign where it
/// is negative, the whole part, a point, and exactly two digits.
pub open spec fn hundredths_text(h: int) -> Seq<char> {
    let m: nat = if h < 0 {
        (-h) as nat
    } else {
        h as nat
    };
    let unsigned = padded_digits(m / 100, 1) + seq!['.'] + padded_digits(m % 100, 2);
    if h < 0 {
        seq!['-'] + unsigned
    } else {
        unsigned
    }
}

/// Two digits are written for a number below one hundred.
pub proof fn lemma_two_digits(n: nat)
    requires
        n < 100,
    ensures
        padded_digits(n, 2) == seq![digit_char(n / 10), digit_char(n % 10)],
{
    reveal_with_fuel(padded_digits, 2);
}

/// Reading back the notation of a count of hundredths gives that count.
pub proof fn lemma_hundredths_text_round_trip(h: int)
    ensures
        hundredths_text_value(hundredths_text(h)) == Some(h),
{
    let m: nat = if h < 0 {
        (-h) as nat
    } else {
        h as nat
    };
    let whole = padded_digits(m / 100, 1);
    let unsigned = whole + seq!['.'] + padded_digits(m % 100, 2);
    let t = hundredths_text(h);
    lemma_padded_digits(m / 100, 1);
    lemma_two_digits(m % 100);
    assert(unsigned.take(unsigned.len() - 3) =~= whole);
    if h < 0 {
        assert(t.subrange(1, t.len() as int) =~= unsigned);
    }
}

/// Writes a count of hundredths in fixed-point notation, two digits behind
/// the point.
pub fn hundredths_to_text(h: i64) -> (r: String)
    ensures
        r@ == hundredths_text(h as int),
{
    let mut out = String::new();
    let magnitude: u64 = if h < 0 {
        proof {
            reveal_strlit("-");
        }
        out.append("-");
        (-(h as i128)) as u64
    } else {
        h as u64
    };
    push_digits(&mut out, magnitude / 100, 1);
    proof {
        reveal_strlit(".");
    }
    out.append(".");
    push_digits(&mut out, magnitude % 100, 2);
    out
}

} // verus!
