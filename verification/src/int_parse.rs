//! Decimal integer parsing with the semantics of `str::parse` for `i32` and `u32`:
//! one optional leading `+` (or `-` for signed targets), then one or more ASCII
//! digits, scanned left to right; the first bad digit or the first step that leaves
//! the target range decides the error.
use vstd::prelude::*;

use crate::text::{dec_digits, digit_char, int_text};


verus! {

/// Why a text is not a decimal integer of the target type (mirrors `std::num::IntErrorKind`).
#[derive(Debug, Clone, Copy, PartialEq, Eq, Structural)]
pub enum IntParseError {
    /// The text is empty.
    Empty,
    /// A character that is not a decimal digit was found.
    InvalidDigit,
    /// The value is above the target type's maximum.
    PosOverflow,
    /// The value is below the target type's minimum.
    NegOverflow,
}

/// `c` is one of the ASCII digits `0`..`9`.
pub open spec fn is_digit(c: char) -> bool {
    48 <= (c as u32) <= 57
}

/// The value of the digit character `c`.
pub open spec fn digit_value(c: char) -> int {
    (c as u32) - 48
}

/// Scans `d[i..]` as decimal digits onto the accumulated value `acc`
/// (subtracting each digit when `neg`), staying within `lo..=hi`.
pub open spec fn scan_digits(d: Seq<char>, i: int, acc: int, neg: bool, lo: int, hi: int) -> Result<
    int,
    IntParseError,
>
    decreases d.len() - i,
{
    if i < 0 || i >= d.len() {
        Ok(acc)
    } else if !is_digit(d[i]) {
        Err(IntParseError::InvalidDigit)
    } else {
        let next = if neg {
            acc * 10 - digit_value(d[i])
        } else {
            acc * 10 + digit_value(d[i])
        };
        if next > hi {
            Err(IntParseError::PosOverflow)
        } else if next < lo {
            Err(IntParseError::NegOverflow)
        } else {
            scan_digits(d, i + 1, next, neg, lo, hi)
        }
    }
}

/// The result of parsing `s` as an integer in `lo..=hi`; `signed` allows a leading `-`.
pub open spec fn parse_int_text(s: Seq<char>, signed: bool, lo: int, hi: int) -> Result<
    int,
    IntParseError,
> {
    if s.len() == 0 {
        Err(IntParseError::Empty)
    } else if s.len() == 1 && (s[0] == '+' || s[0] == '-') {
        Err(IntParseError::InvalidDigit)
    } else if s[0] == '+' {
        scan_digits(s, 1, 0, false, lo, hi)
    } else if s[0] == '-' && signed {
        scan_digits(s, 1, 0, true, lo, hi)
    } else {
        scan_digits(s, 0, 0, false, lo, hi)
    }
}

/// `s` parsed as an `i32`.
pub open spec fn parse_i32_text(s: Seq<char>) -> Result<int, IntParseError> {
    parse_int_text(s, true, i32::MIN as int, i32::MAX as int)
}

/// `s` parsed as a `u32`.
pub open spec fn parse_u32_text(s: Seq<char>) -> Result<int, IntParseError> {
    parse_int_text(s, false, 0, u32::MAX as int)
}

/// The message `ParseIntError` displays for each kind.
pub open spec fn int_error_text(k: IntParseError) -> Seq<char> {
    match k {
        IntParseError::Empty => "cannot parse integer from empty string"@,
        IntParseError::InvalidDigit => "invalid digit found in string"@,
        IntParseError::PosOverflow => "number too large to fit in target type"@,
        IntParseError::NegOverflow => "number too small to fit in target type"@,
    }
}

/// Every value a successful scan gives lies in `lo..=hi`.
pub proof fn lemma_scan_in_range(d: Seq<char>, i: int, acc: int, neg: bool, lo: int, hi: int)
    requires
        lo <= acc <= hi,
    ensures
        scan_digits(d, i, acc, neg, lo, hi) matches Ok(v) ==> lo <= v <= hi,
    decreases d.len() - i,
{
    if i < 0 || i >= d.len() {
    } else if !is_digit(d[i]) {
    } else {
        let next = if neg {
            acc * 10 - digit_value(d[i])
        } else {
            acc * 10 + digit_value(d[i])
        };
        if next > hi {
        } else if next < lo {
        } else {
            lemma_scan_in_range(d, i + 1, next, neg, lo, hi);
        }
    }
}

/// Parses `s` as a decimal integer in `lo..=hi` (a leading `-` only when `signed`).
pub fn parse_int(s: &Vec<char>, signed: bool, lo: i64, hi: i64) -> (r: Result<i64, IntParseError>)
    requires
        -0x1_0000_0000 <= lo <= 0 <= hi <= 0x1_0000_0000,
    ensures
        match r {
            Ok(v) => parse_int_text(s@, signed, lo as int, hi as int) == Ok::<int, IntParseError>(
                v as int,
            ),
            Err(k) => parse_int_text(s@, signed, lo as int, hi as int) == Err::<int, IntParseError>(
                k,
            ),
        },
{
    let n = s.len();
    if n == 0 {
        return Err(IntParseError::Empty);
    }
    if n == 1 && (s[0] == '+' || s[0] == '-') {
        return Err(IntParseError::InvalidDigit);
    }
    let mut start: usize = 0;
    let mut neg = false;
    if s[0] == '+' {
        start = 1;
    } else if s[0] == '-' && signed {
        start = 1;
        neg = true;
    }
    let mut acc: i64 = 0;
    let mut i: usize = start;
    while i < n
        invariant
            n == s@.len(),
            start <= i <= n,
            lo <= acc <= hi,
            -0x1_0000_0000 <= lo <= 0 <= hi <= 0x1_0000_0000,
            parse_int_text(s@, signed, lo as int, hi as int) == scan_digits(
                s@,
                i as int,
                acc as int,
                neg,
                lo as int,
                hi as int,
            ),
        decreases n - i,
    {
        let c = s[i];
        let code: u32 = c as u32;
        if code < 48 || code > 57 {
            return Err(IntParseError::InvalidDigit);
        }
        let d: i64 = (code - 48) as i64;
        let next: i64 = if neg {
            acc * 10 - d
        } else {
            acc * 10 + d
        };
        if next > hi {
            return Err(IntParseError::PosOverflow);
        }
        if next < lo {
            return Err(IntParseError::NegOverflow);
        }
        acc = next;
        i = i + 1;
    }
    Ok(acc)
}

/// Parses `s` as an `i32`, as `str::parse::<i32>` does.
pub fn parse_i32_chars(s: &Vec<char>) -> (r: Result<i32, IntParseError>)
    ensures
        match r {
            Ok(v) => parse_i32_text(s@) == Ok::<int, IntParseError>(v as int),
            Err(k) => parse_i32_text(s@) == Err::<int, IntParseError>(k),
        },
{
    match parse_int(s, true, -2147483648, 2147483647) {
        Ok(v) => {
            proof {
                lemma_parse_in_range(s@, true, -2147483648, 2147483647);
            }
            Ok(v as i32)
        },
        Err(k) => Err(k),
    }
}

/// Parses `s` as a `u32`, as `str::parse::<u32>` does.
pub fn parse_u32_chars(s: &Vec<char>) -> (r: Result<u32, IntParseError>)
    ensures
        match r {
            Ok(v) => parse_u32_text(s@) == Ok::<int, IntParseError>(v as int),
            Err(k) => parse_u32_text(s@) == Err::<int, IntParseError>(k),
        },
{
    match parse_int(s, false, 0, 4294967295) {
        Ok(v) => {
            proof {
                lemma_parse_in_range(s@, false, 0, 4294967295);
            }
            Ok(v as u32)
        },
        Err(k) => Err(k),
    }
}

/// Every value a successful parse gives lies in `lo..=hi`.
pub proof fn lemma_parse_in_range(s: Seq<char>, signed: bool, lo: int, hi: int)
    requires
        lo <= 0 <= hi,
    ensures
        parse_int_text(s, signed, lo, hi) matches Ok(v) ==> lo <= v <= hi,
{
    lemma_scan_in_range(s, 0, 0, false, lo, hi);
    lemma_scan_in_range(s, 1, 0, false, lo, hi);
    lemma_scan_in_range(s, 1, 0, true, lo, hi);
}

/// The message `ParseIntError` displays for `k`.
pub fn int_error_message(k: IntParseError) -> (m: String)
    ensures
        m@ == int_error_text(k),
{
    match k {
        IntParseError::Empty => "cannot parse integer from empty string".to_owned(),
        IntParseError::InvalidDigit => "invalid digit found in string".to_owned(),
        IntParseError::PosOverflow => "number too large to fit in target type".to_owned(),
        IntParseError::NegOverflow => "number too small to fit in target type".to_owned(),
    }
}

// ── Reading back what `Display` writes ─────────────────────────────────────

/// The value of the digits `d[i..]` read onto `acc`, with no range limit.
pub open spec fn scan_value(d: Seq<char>, i: int, acc: int) -> int
    decreases d.len() - i,
{
    if i < 0 || i >= d.len() {
        acc
    } else {
        scan_value(d, i + 1, acc * 10 + digit_value(d[i]))
    }
}

/// Every character of `d` from index `i` on is a digit.
pub open spec fn digits_from(d: Seq<char>, i: int) -> bool {
    forall|j: int| i <= j < d.len() ==> is_digit(#[trigger] d[j])
}

proof fn lemma_digit_char(n: nat)
    requires
        n < 10,
    ensures
        is_digit(digit_char(n)),
        digit_value(digit_char(n)) == n,
{
    assert((digit_char(n) as u32) == n + 48);
}

proof fn lemma_scan_push(t: Seq<char>, c: char, i: int, acc: int)
    requires
        0 <= i <= t.len(),
    ensures
        scan_value(t.push(c), i, acc) == scan_value(t, i, acc) * 10 + digit_value(c),
    decreases t.len() - i,
{
    if i == t.len() {
        assert(t.push(c)[i] == c);
        assert(scan_value(t.push(c), i + 1, acc * 10 + digit_value(c)) == acc * 10 + digit_value(c));
    } else {
        assert(t.push(c)[i] == t[i]);
        lemma_scan_push(t, c, i + 1, acc * 10 + digit_value(t[i]));
    }
}

/// `dec_digits(n)` is made of digits and reads back as `n`.
pub proof fn lemma_dec_digits_value(n: nat)
    ensures
        dec_digits(n).len() >= 1,
        digits_from(dec_digits(n), 0),
        scan_value(dec_digits(n), 0, 0) == n,
    decreases n,
{
    if n < 10 {
        lemma_digit_char(n);
        let d = dec_digits(n);
        assert(d =~= seq![digit_char(n)]);
        assert(scan_value(d, 1, digit_value(d[0])) == digit_value(d[0]));
    } else {
        lemma_dec_digits_value(n / 10);
        lemma_digit_char(n % 10);
        let t = dec_digits(n / 10);
        lemma_scan_push(t, digit_char(n % 10), 0, 0);
        assert(dec_digits(n) == t.push(digit_char(n % 10)));
        assert forall|j: int| 0 <= j < dec_digits(n).len() implies is_digit(
            #[trigger] dec_digits(n)[j],
        ) by {
            if j < t.len() {
                assert(dec_digits(n)[j] == t[j]);
            }
        }
    }
}

proof fn lemma_scan_grows(d: Seq<char>, i: int, acc: int)
    requires
        0 <= acc,
        0 <= i,
        digits_from(d, i),
    ensures
        acc <= scan_value(d, i, acc),
    decreases d.len() - i,
{
    if i < d.len() {
        assert(is_digit(d[i]));
        lemma_scan_grows(d, i + 1, acc * 10 + digit_value(d[i]));
    }
}

/// Scanning digits whose value fits the range gives that value (read upwards).
proof fn lemma_scan_up(d: Seq<char>, i: int, acc: int, lo: int, hi: int)
    requires
        0 <= acc,
        0 <= i,
        lo <= 0,
        digits_from(d, i),
        scan_value(d, i, acc) <= hi,
    ensures
        scan_digits(d, i, acc, false, lo, hi) == Ok::<int, IntParseError>(scan_value(d, i, acc)),
    decreases d.len() - i,
{
    if i < d.len() {
        assert(is_digit(d[i]));
        let next = acc * 10 + digit_value(d[i]);
        lemma_scan_grows(d, i + 1, next);
        lemma_scan_up(d, i + 1, next, lo, hi);
    }
}

/// Scanning digits whose negated value fits the range gives that value (read downwards).
proof fn lemma_scan_down(d: Seq<char>, i: int, acc: int, lo: int, hi: int)
    requires
        0 <= acc,
        0 <= i,
        0 <= hi,
        digits_from(d, i),
        lo <= -scan_value(d, i, acc),
    ensures
        scan_digits(d, i, -acc, true, lo, hi) == Ok::<int, IntParseError>(-scan_value(d, i, acc)),
    decreases d.len() - i,
{
    if i < d.len() {
        assert(is_digit(d[i]));
        let next = acc * 10 + digit_value(d[i]);
        assert(-acc * 10 - digit_value(d[i]) == -next);
        lemma_scan_grows(d, i + 1, next);
        lemma_scan_down(d, i + 1, next, lo, hi);
    }
}

proof fn lemma_scan_shift(p: Seq<char>, d: Seq<char>, j: int, acc: int)
    requires
        0 <= j <= d.len(),
    ensures
        scan_value(p + d, p.len() + j, acc) == scan_value(d, j, acc),
    decreases d.len() - j,
{
    if j < d.len() {
        assert((p + d)[p.len() + j] == d[j]);
        lemma_scan_shift(p, d, j + 1, acc * 10 + digit_value(d[j]));
    }
}

/// Parsing what `Display` writes for `n` gives back `n`, for any range holding `n`
/// (a negative `n` needs a signed target).
pub proof fn lemma_parse_int_text_of(n: int, signed: bool, lo: int, hi: int)
    requires
        lo <= n <= hi,
        lo <= 0 <= hi,
        n < 0 ==> signed,
    ensures
        parse_int_text(int_text(n), signed, lo, hi) == Ok::<int, IntParseError>(n),
{
    if n >= 0 {
        let d = dec_digits(n as nat);
        lemma_dec_digits_value(n as nat);
        lemma_scan_up(d, 0, 0, lo, hi);
        assert(is_digit(d[0]));
    } else {
        let d = dec_digits((-n) as nat);
        let s = int_text(n);
        lemma_dec_digits_value((-n) as nat);
        assert(s == seq!['-'] + d);
        lemma_scan_shift(seq!['-'], d, 0, 0);
        assert forall|j: int| 1 <= j < s.len() implies is_digit(#[trigger] s[j]) by {
            assert(s[j] == d[j - 1]);
        }
        lemma_scan_down(s, 1, 0, lo, hi);
        assert(s[0] == '-');
    }
}

} // verus!
