//! Numbers written as decimal text.
//!
//! Pixel counts reach the pipeline as text and leave it as text on a tool's
//! command line. This module reads the one and writes the other.

use vstd::prelude::*;

verus! {

/// ASCII code of the plus sign.
const PLUS: u8 = 43;

/// ASCII code of the digit zero.
const ZERO: u8 = 48;

/// ASCII code of the digit nine.
const NINE: u8 = 57;

/// Whether `c` is one of the ten ASCII decimal digits.
pub open spec fn is_digit(c: char) -> bool {
    '0' <= c && c <= '9'
}

/// The number a digit stands for.
pub open spec fn digit_value(c: char) -> nat
    recommends
        is_digit(c),
{
    (c as int - '0' as int) as nat
}

/// The digit that stands for a number below ten.
pub open spec fn digit_char(d: nat) -> char
    recommends
        d < 10,
{
    ('0' as int + d) as char
}

/// Whether every character of `s` is a decimal digit.
pub open spec fn all_digits(s: Seq<char>) -> bool {
    forall|i: int| 0 <= i < s.len() ==> is_digit(#[trigger] s[i])
}

/// The number that a run of digits denotes, most significant digit first.
/// The empty run denotes zero.
pub open spec fn digits_value(s: Seq<char>) -> nat
    decreases s.len(),
{
    if s.len() == 0 {
        0
    } else {
        10 * digits_value(s.drop_last()) + digit_value(s.last())
    }
}

/// What is left of `s` once one leading plus sign, if present, is removed.
pub open spec fn unsigned_part(s: Seq<char>) -> Seq<char> {
    if s.len() > 0 && s[0] == '+' {
        s.drop_first()
    } else {
        s
    }
}

/// Whether `s` is numeric text: an optional plus sign followed by one or more
/// decimal digits and nothing else.
pub open spec fn is_number(s: Seq<char>) -> bool {
    unsigned_part(s).len() > 0 && all_digits(unsigned_part(s))
}

/// The number that numeric text denotes.
pub open spec fn number_value(s: Seq<char>) -> nat
    recommends
        is_number(s),
{
    digits_value(unsigned_part(s))
}

/// The pixel count that `s` denotes, or `None` where `s` is not numeric text
/// or denotes a number beyond `u32::MAX`.
pub open spec fn parsed_number(s: Seq<char>) -> Option<u32> {
    if is_number(s) && number_value(s) <= u32::MAX {
        Some(number_value(s) as u32)
    } else {
        None
    }
}

/// The shortest decimal text of `n`.
pub open spec fn decimal_digits(n: nat) -> Seq<char>
    decreases n,
{
    if n < 10 {
        seq![digit_char(n)]
    } else {
        decimal_digits(n / 10).push(digit_char(n % 10))
    }
}

/// The decimal text of an integer: a minus sign in front of a negative one.
pub open spec fn signed_decimal(n: int) -> Seq<char> {
    if n < 0 {
        seq!['-'] + decimal_digits((-n) as nat)
    } else {
        decimal_digits(n as nat)
    }
}

/// A run of digits denotes at least as much as any of its prefixes.
proof fn lemma_prefix_value(s: Seq<char>, k: int)
    requires
        0 <= k <= s.len(),
    ensures
        digits_value(s.subrange(0, k)) <= digits_value(s),
    decreases s.len(),
{
    if k == s.len() {
        assert(s.subrange(0, k) =~= s);
    } else {
        lemma_prefix_value(s.drop_last(), k);
        assert(s.drop_last().subrange(0, k) =~= s.subrange(0, k));
    }
}

/// The decimal text of a number is a run of digits, not empty, that denotes
/// the number.
proof fn lemma_decimal_digits(n: nat)
    ensures
        decimal_digits(n).len() > 0,
        all_digits(decimal_digits(n)),
        digits_value(decimal_digits(n)) == n,
    decreases n,
{
    let text = decimal_digits(n);
    if n < 10 {
        assert(text.drop_last() =~= Seq::<char>::empty());
        assert(digits_value(text) == 10 * digits_value(text.drop_last()) + digit_value(
            text.last(),
        ));
    } else {
        lemma_decimal_digits(n / 10);
        assert(text.drop_last() =~= decimal_digits(n / 10));
        assert(text.last() == digit_char(n % 10));
        assert forall|i: int| 0 <= i < text.len() implies is_digit(#[trigger] text[i]) by {
            if i < text.len() - 1 {
                assert(text[i] == decimal_digits(n / 10)[i]);
            }
        }
    }
}

/// What is written reads back: the decimal text of a number is numeric text
/// that denotes the number, so a pixel count that was read and written again
/// is read as the same count.
pub proof fn theorem_written_number_reads_back(n: nat)
    ensures
        is_number(decimal_digits(n)),
        number_value(decimal_digits(n)) == n,
        n <= u32::MAX ==> parsed_number(decimal_digits(n)) == Some(n as u32),
{
    lemma_decimal_digits(n);
    assert(is_digit(decimal_digits(n)[0]));
    assert(unsigned_part(decimal_digits(n)) == decimal_digits(n));
}

/// Reading numeric text.
///
/// Returns the number that `text` denotes when `text` is an optional plus
/// sign followed by one or more decimal digits and the number fits in a
/// `u32`; returns `None` for every other text.
pub fn parse_number(text: &str) -> (value: Option<u32>)
    ensures
        value == parsed_number(text@),
{
    if !text.is_ascii() {
        proof {
            lemma_non_ascii_is_no_number(text@);
        }
        return None;
    }
    let bytes = text.as_bytes();
    proof {
        vstd::string::is_ascii_spec_bytes(text);
    }
    let n: usize = bytes.len();
    let start: usize = if n > 0 && bytes[0] == PLUS {
        1
    } else {
        0
    };
    let ghost digits = unsigned_part(text@);
    assert(digits =~= text@.subrange(start as int, n as int));
    if start == n {
        return None;
    }
    let mut i: usize = start;
    let mut total: u64 = 0;
    while i < n
        invariant
            start <= i <= n,
            n == text@.len(),
            n == bytes@.len(),
            vstd::string::is_ascii(text),
            bytes@ =~= Seq::new(text@.len(), |j: int| text@[j] as u8),
            digits == text@.subrange(start as int, n as int),
            digits == unsigned_part(text@),
            all_digits(digits.subrange(0, i - start)),
            total == digits_value(digits.subrange(0, i - start)),
            total <= u32::MAX,
        decreases n - i,
    {
        let b: u8 = bytes[i];
        let ghost c = text@[i as int];
        assert(c == digits[i - start]);
        assert(b == c as u8 && c <= '\u{7f}');
        if b < ZERO || b > NINE {
            return None;
        }
        let ghost longer = digits.subrange(0, i - start + 1);
        assert(longer.drop_last() =~= digits.subrange(0, i - start));
        assert(longer.last() == c);
        total = total * 10 + (b - ZERO) as u64;
        assert(total == digits_value(longer));
        if total > u32::MAX as u64 {
            proof {
                lemma_prefix_value(digits, i - start + 1);
            }
            return None;
        }
        i = i + 1;
    }
    assert(digits.subrange(0, i - start) =~= digits);
    Some(total as u32)
}

/// Text with a character outside ASCII is not numeric.
proof fn lemma_non_ascii_is_no_number(s: Seq<char>)
    requires
        !vstd::utf8::is_ascii_chars(s),
    ensures
        !is_number(s),
{
    let i = choose|i: int| 0 <= i < s.len() && !('\0' <= #[trigger] s[i] <= '\u{7f}');
    let digits = unsigned_part(s);
    if s[0] == '+' {
        assert(i > 0);
        assert(digits[i - 1] == s[i]);
        assert(!is_digit(digits[i - 1]));
    } else {
        assert(!is_digit(digits[i]));
    }
}

/// The one-character text of a digit.
fn digit_text(d: u64) -> (text: &'static str)
    requires
        d < 10,
    ensures
        text@ == seq![digit_char(d as nat)],
{
    proof {
        reveal_strlit("0");
        reveal_strlit("1");
        reveal_strlit("2");
        reveal_strlit("3");
        reveal_strlit("4");
        reveal_strlit("5");
        reveal_strlit("6");
        reveal_strlit("7");
        reveal_strlit("8");
        reveal_strlit("9");
    }
    let text: &'static str = if d == 0 {
        "0"
    } else if d == 1 {
        "1"
    } else if d == 2 {
        "2"
    } else if d == 3 {
        "3"
    } else if d == 4 {
        "4"
    } else if d == 5 {
        "5"
    } else if d == 6 {
        "6"
    } else if d == 7 {
        "7"
    } else if d == 8 {
        "8"
    } else {
        "9"
    };
    assert(text@ =~= seq![digit_char(d as nat)]);
    text
}

/// Appends the decimal text of `n` to `text`.
pub fn append_decimal(text: &mut String, n: u64)
    ensures
        final(text)@ == old(text)@ + decimal_digits(n as nat),
    decreases n,
{
    if n >= 10 {
        append_decimal(text, n / 10);
    }
    text.append(digit_text(n % 10));
    assert(text@ =~= old(text)@ + decimal_digits(n as nat));
}

/// Writes `n` in decimal, without sign or leading zeros.
pub fn decimal_text(n: u64) -> (text: String)
    ensures
        text@ == decimal_digits(n as nat),
{
    let mut text = String::new();
    append_decimal(&mut text, n);
    assert(text@ =~= decimal_digits(n as nat));
    text
}

/// Appends the decimal text of `n`, with a minus sign if `n` is negative.
pub fn append_signed_decimal(text: &mut String, n: i32)
    ensures
        final(text)@ == old(text)@ + signed_decimal(n as int),
{
    if n < 0 {
        proof {
            reveal_strlit("-");
        }
        text.append("-");
        assert(text@ =~= old(text)@ + seq!['-']);
        let magnitude: u64 = (-(n as i64)) as u64;
        append_decimal(text, magnitude);
        assert(text@ =~= old(text)@ + signed_decimal(n as int));
    } else {
        append_decimal(text, n as u64);
    }
}

} // verus!
