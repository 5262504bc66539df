//! Hexadecimal text: the digits, the bytes that a run of digits writes, and the
//! text that writes given bytes.

use vstd::prelude::*;
use crate::ascii::{CODE_0, CODE_9, CODE_LOWER_A, CODE_LOWER_F, CODE_UPPER_A, CODE_UPPER_F};

verus! {

/// The value of a hex digit of either case; `None` for every other character.
pub open spec fn hex_digit_value(c: char) -> Option<u8> {
    if '0' <= c <= '9' {
        Some((c as int - '0' as int) as u8)
    } else if 'a' <= c <= 'f' {
        Some((c as int - 'a' as int + 10) as u8)
    } else if 'A' <= c <= 'F' {
        Some((c as int - 'A' as int + 10) as u8)
    } else {
        None
    }
}

/// Whether every character of `s` is a hex digit.
pub open spec fn is_hex_text(s: Seq<char>) -> bool {
    forall|i: int| 0 <= i < s.len() ==> (#[trigger] hex_digit_value(s[i])) is Some
}

/// The byte written by two hex digits, the high one first.
pub open spec fn hex_pair_value(high: char, low: char) -> u8 {
    (16 * hex_digit_value(high)->0 + hex_digit_value(low)->0) as u8
}

/// The bytes written by an even number of hex digits, two digits to a byte.
pub open spec fn hex_bytes(s: Seq<char>) -> Seq<u8> {
    Seq::new(s.len() / 2, |i: int| hex_pair_value(s[2 * i], s[2 * i + 1]))
}

/// The lower-case digit for a value below sixteen.
pub open spec fn hex_digit_char(v: u8) -> char {
    if v < 10 {
        ('0' as int + v) as char
    } else {
        ('a' as int + v - 10) as char
    }
}

/// The lower-case hex text of `bytes`, two digits to a byte.
pub open spec fn hex_text(bytes: Seq<u8>) -> Seq<char> {
    Seq::new(
        2 * bytes.len(),
        |i: int|
            if i % 2 == 0 {
                hex_digit_char(bytes[i / 2] / 16)
            } else {
                hex_digit_char(bytes[i / 2] % 16)
            },
    )
}

/// The wire form of `bytes`: `0x` and their lower-case hex text.
pub open spec fn prefixed_hex_text(bytes: Seq<u8>) -> Seq<char> {
    seq!['0', 'x'] + hex_text(bytes)
}

/// Reading a digit that was written for a value gives the value back.
pub proof fn lemma_hex_digit_round_trip(v: u8)
    requires
        v < 16,
    ensures
        hex_digit_value(hex_digit_char(v)) == Some(v),
{
}

/// Hex text decodes to the bytes it was written from.
pub proof fn lemma_hex_text_round_trip(bytes: Seq<u8>)
    ensures
        hex_text(bytes).len() == 2 * bytes.len(),
        is_hex_text(hex_text(bytes)),
        hex_bytes(hex_text(bytes)) == bytes,
{
    let s = hex_text(bytes);
    assert forall|i: int| 0 <= i < s.len() implies (#[trigger] hex_digit_value(s[i])) is Some by {
        lemma_hex_digit_round_trip(bytes[i / 2] / 16);
        lemma_hex_digit_round_trip(bytes[i / 2] % 16);
    }
    assert forall|i: int| 0 <= i < bytes.len() implies hex_bytes(s)[i] == bytes[i] by {
        lemma_hex_digit_round_trip(bytes[i] / 16);
        lemma_hex_digit_round_trip(bytes[i] % 16);
        assert(s[2 * i] == hex_digit_char(bytes[i] / 16));
        assert(s[2 * i + 1] == hex_digit_char(bytes[i] % 16));
    }
    assert(hex_bytes(s) =~= bytes);
}

/// The value of the hex digit with ASCII code `code`, if it is one.
pub fn hex_digit(code: u8) -> (r: Option<u8>)
    ensures
        r == hex_digit_value(code as char),
{
    if CODE_0 <= code && code <= CODE_9 {
        Some(code - CODE_0)
    } else if CODE_LOWER_A <= code && code <= CODE_LOWER_F {
        Some(code - CODE_LOWER_A + 10)
    } else if CODE_UPPER_A <= code && code <= CODE_UPPER_F {
        Some(code - CODE_UPPER_A + 10)
    } else {
        None
    }
}

/// The ASCII code of the lower-case hex digit for `v`.
pub(crate) fn hex_digit_code(v: u8) -> (r: u8)
    requires
        v < 16,
    ensures
        r as char == hex_digit_char(v),
        r < 128,
{
    if v < 10 {
        CODE_0 + v
    } else {
        CODE_LOWER_A + (v - 10)
    }
}

} // verus!
