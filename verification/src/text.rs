//! Byte-level text helpers for the shell-mediated backend: escaping
//! caller text for safe embedding in an interpreter command, rendering
//! numbers as decimal digits, and parsing the backend's textual output
//! back into a raw response code.
//!
//! Everything works on bytes. The characters that need escaping are all
//! ASCII, and in UTF-8 an ASCII byte value never occurs inside the
//! encoding of another character, so byte-level escaping is exact for any
//! UTF-8 input.

use vstd::prelude::*;
use vstd::string::StringSliceAdditionalSpecFns;

use crate::error::Error;

verus! {

/// Byte value of the double-quote character.
pub const DOUBLE_QUOTE: u8 = 34;
/// Byte value of the apostrophe (single-quote) character.
pub const APOSTROPHE: u8 = 39;
/// Byte value of the backtick character, the interpreter's escape prefix.
pub const BACKTICK: u8 = 96;
/// Byte value of the carriage-return character.
pub const CARRIAGE_RETURN: u8 = 13;
/// Byte value of the line-feed character.
pub const LINE_FEED: u8 = 10;
/// Byte value of the minus sign.
pub const MINUS_SIGN: u8 = 45;
/// Byte value of the digit zero.
pub const DIGIT_ZERO: u8 = 48;

/// The UTF-8 encoding of a text, the byte form in which every backend
/// receives it.
pub open spec fn utf8_bytes(s: Seq<char>) -> Seq<u8> {
    vstd::utf8::encode_utf8(s)
}

/// Whether the interpreter treats this byte specially inside a
/// double-quoted string, so that it must carry a backtick prefix.
pub open spec fn needs_escape(b: u8) -> bool {
    b == DOUBLE_QUOTE || b == APOSTROPHE || b == BACKTICK
}

/// The escaped form of one byte: a backtick prefix where needed, the byte
/// alone otherwise.
pub open spec fn escape1(b: u8) -> Seq<u8> {
    if needs_escape(b) {
        seq![BACKTICK, b]
    } else {
        seq![b]
    }
}

/// The escaped form of a whole text, byte by byte.
pub open spec fn escape_bytes(s: Seq<u8>) -> Seq<u8>
    decreases s.len(),
{
    if s.len() == 0 {
        Seq::empty()
    } else {
        escape1(s[0]) + escape_bytes(s.drop_first())
    }
}

/// The sanitized form of caller text: the escaped text wrapped in double
/// quotes. Escaping is applied exactly once, at serialization time; text
/// that contains none of the special characters only gains the wrapping
/// quotes.
pub open spec fn sanitize_spec(s: Seq<u8>) -> Seq<u8> {
    seq![DOUBLE_QUOTE] + escape_bytes(s) + seq![DOUBLE_QUOTE]
}

/// Escaping distributes over appending one byte at the end.
proof fn lemma_escape_bytes_push(s: Seq<u8>, b: u8)
    ensures
        escape_bytes(s.push(b)) == escape_bytes(s) + escape1(b),
    decreases s.len(),
{
    if s.len() == 0 {
        let p = s.push(b);
        assert(p.len() == 1);
        assert(p[0] == b);
        assert(p.drop_first() =~= Seq::<u8>::empty());
        assert(escape_bytes(p) == escape1(b) + escape_bytes(Seq::<u8>::empty()));
        assert(escape_bytes(p) =~= escape_bytes(s) + escape1(b));
    } else {
        assert(s.push(b)[0] == s[0]);
        assert(s.push(b).drop_first() =~= s.drop_first().push(b));
        lemma_escape_bytes_push(s.drop_first(), b);
        assert(escape_bytes(s.push(b)) =~= escape_bytes(s) + escape1(b));
    }
}

/// Escape caller text for safe embedding in the interpreter command line:
/// wrap it in double quotes and prefix every quote, apostrophe and
/// backtick with a backtick.
pub fn sanitize(text: &str) -> (out: Vec<u8>)
    ensures
        out@ == sanitize_spec(text.spec_bytes()),
{
    let bytes = text.as_bytes();
    let mut out: Vec<u8> = Vec::new();
    out.push(DOUBLE_QUOTE);
    let mut i: usize = 0;
    while i < bytes.len()
        invariant
            i <= bytes@.len(),
            bytes@ == text.spec_bytes(),
            out@ == seq![DOUBLE_QUOTE] + escape_bytes(bytes@.take(i as int)),
        decreases bytes@.len() - i,
    {
        let b = bytes[i];
        proof {
            assert(bytes@.take(i as int).push(b) =~= bytes@.take(i + 1 as int));
            lemma_escape_bytes_push(bytes@.take(i as int), b);
        }
        if b == DOUBLE_QUOTE || b == APOSTROPHE || b == BACKTICK {
            out.push(BACKTICK);
        }
        out.push(b);
        i = i + 1;
    }
    proof {
        assert(bytes@.take(bytes@.len() as int) =~= bytes@);
    }
    out.push(DOUBLE_QUOTE);
    out
}

/// The decimal digit string of a number, most significant digit first.
pub open spec fn dec_digits(n: nat) -> Seq<u8>
    decreases n,
{
    if n < 10 {
        seq![(48 + n) as u8]
    } else {
        dec_digits((n / 10) as nat).push((48 + n % 10) as u8)
    }
}

/// Append the decimal digits of `n` to `out`.
pub fn push_decimal(n: u32, out: &mut Vec<u8>)
    ensures
        final(out)@ == old(out)@ + dec_digits(n as nat),
    decreases n,
{
    if n < 10 {
        let d: u8 = DIGIT_ZERO + (n as u8);
        out.push(d);
        assert(final(out)@ =~= old(out)@ + dec_digits(n as nat));
    } else {
        push_decimal(n / 10, out);
        let d: u8 = DIGIT_ZERO + ((n % 10) as u8);
        out.push(d);
        assert(final(out)@ =~= old(out)@ + dec_digits(n as nat));
    }
}

/// The decimal digit string of a number, as a fresh vector.
pub fn decimal_bytes(n: u32) -> (out: Vec<u8>)
    ensures
        out@ == dec_digits(n as nat),
{
    let mut out: Vec<u8> = Vec::new();
    push_decimal(n, &mut out);
    assert(out@ =~= dec_digits(n as nat));
    out
}

/// Whether a byte is an ASCII decimal digit.
pub open spec fn is_digit(b: u8) -> bool {
    48 <= b && b <= 57
}

/// Whether every byte of a text is an ASCII decimal digit.
pub open spec fn all_digits(s: Seq<u8>) -> bool {
    forall|i: int| 0 <= i < s.len() ==> is_digit(#[trigger] s[i])
}

/// The number a digit string denotes.
pub open spec fn digits_value(s: Seq<u8>) -> int
    decreases s.len(),
{
    if s.len() == 0 {
        0
    } else {
        digits_value(s.drop_last()) * 10 + (s.last() - 48)
    }
}

/// Whether a text is a decimal integer literal: one or more digits, with
/// an optional leading minus sign.
pub open spec fn is_int_literal(s: Seq<u8>) -> bool {
    if s.len() == 0 {
        false
    } else if s[0] == MINUS_SIGN {
        s.len() >= 2 && all_digits(s.skip(1))
    } else {
        all_digits(s)
    }
}

/// The number an integer literal denotes.
pub open spec fn int_literal_value(s: Seq<u8>) -> int {
    if s.len() > 0 && s[0] == MINUS_SIGN {
        -digits_value(s.skip(1))
    } else {
        digits_value(s)
    }
}

/// Backend output with its fixed two-byte trailing terminator stripped,
/// when the terminator is present.
pub open spec fn stripped(s: Seq<u8>) -> Seq<u8> {
    if s.len() >= 2 && s[s.len() - 2] == CARRIAGE_RETURN && s[s.len() - 1] == LINE_FEED {
        s.take(s.len() - 2)
    } else {
        s
    }
}

/// A digit string denotes a number that is not negative.
proof fn lemma_digits_value_nonneg(s: Seq<u8>)
    requires
        all_digits(s),
    ensures
        digits_value(s) >= 0,
    decreases s.len(),
{
    if s.len() > 0 {
        assert(is_digit(s[s.len() - 1]));
        lemma_digits_value_nonneg(s.drop_last());
    }
}

/// Dropping trailing digits never increases the denoted number.
proof fn lemma_digits_value_prefix(s: Seq<u8>, i: int)
    requires
        all_digits(s),
        0 <= i <= s.len(),
    ensures
        digits_value(s.take(i)) <= digits_value(s),
    decreases s.len(),
{
    if i < s.len() {
        assert(s.drop_last().take(i) =~= s.take(i));
        lemma_digits_value_prefix(s.drop_last(), i);
        lemma_digits_value_nonneg(s.drop_last());
        assert(is_digit(s[s.len() - 1]));
    } else {
        assert(s.take(i) =~= s);
    }
}

/// Appending one digit multiplies the denoted number by ten and adds the
/// digit.
proof fn lemma_digits_value_push(s: Seq<u8>, b: u8)
    ensures
        digits_value(s.push(b)) == digits_value(s) * 10 + (b - 48),
{
    assert(s.push(b).drop_last() =~= s);
    assert(s.push(b).last() == b);
}

/// Parse the backend's textual output into a raw response code: strip the
/// fixed two-byte trailing terminator when present, then read the rest as
/// a decimal integer. Output whose remainder is not an integer literal,
/// or denotes a number outside the range of a raw code, is rejected as
/// [`Error::MalformedCode`].
pub fn parse_raw_code(out: &[u8]) -> (r: Result<i32, Error>)
    ensures
        r is Ok <==> is_int_literal(stripped(out@)) && -2147483648 <= int_literal_value(
            stripped(out@),
        ) <= 2147483647,
        r matches Ok(v) ==> v as int == int_literal_value(stripped(out@)),
        r is Err ==> r == Err::<i32, Error>(Error::MalformedCode),
{
    let len = out.len();
    let end: usize = if len >= 2 && out[len - 2] == CARRIAGE_RETURN && out[len - 1] == LINE_FEED {
        len - 2
    } else {
        len
    };
    let ghost body = stripped(out@);
    proof {
        assert(out@.take(end as int) =~= body);
    }
    if end == 0 {
        return Err(Error::MalformedCode);
    }
    let neg = out[0] == MINUS_SIGN;
    let start: usize = if neg {
        1
    } else {
        0
    };
    let ghost digits = body.skip(start as int);
    if start >= end {
        // the remainder is just a minus sign, which denotes no number
        return Err(Error::MalformedCode);
    }
    let mut i: usize = start;
    let mut acc: i64 = 0;
    while i < end
        invariant
            start <= i <= end,
            end <= out@.len(),
            body == stripped(out@),
            out@.take(end as int) == body,
            digits == body.skip(start as int),
            start == (if neg { 1int } else { 0int }),
            neg <==> body[0] == MINUS_SIGN,
            start < end <= out@.len(),
            all_digits(digits.take(i - start)),
            acc == digits_value(digits.take(i - start)),
            0 <= acc <= 2147483648,
        decreases end - i,
    {
        let b = out[i];
        proof {
            assert(digits[i - start] == out@[i as int]);
        }
        if b < DIGIT_ZERO || b > DIGIT_ZERO + 9 {
            proof {
                // a non-digit in the digit section makes the whole
                // remainder no integer literal
                assert(!is_digit(digits[i - start]));
                assert(!all_digits(digits));
                if !neg {
                    assert(digits =~= body);
                }
            }
            return Err(Error::MalformedCode);
        }
        proof {
            assert(digits.take(i - start).push(b) =~= digits.take(i + 1 - start));
            lemma_digits_value_push(digits.take(i - start), b);
        }
        acc = acc * 10 + ((b - DIGIT_ZERO) as i64);
        if acc > 2147483648 {
            proof {
                if all_digits(digits) {
                    lemma_digits_value_prefix(digits, i + 1 - start);
                }
                if !neg {
                    assert(digits =~= body);
                }
            }
            return Err(Error::MalformedCode);
        }
        i = i + 1;
    }
    proof {
        assert(digits.take(end - start) =~= digits);
        if !neg {
            assert(digits =~= body);
        }
    }
    if neg {
        let v: i32 = (-acc) as i32;
        Ok(v)
    } else {
        if acc > 2147483647 {
            return Err(Error::MalformedCode);
        }
        Ok(acc as i32)
    }
}

} // verus!
