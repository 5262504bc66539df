//! Integer literals: the number a run of decimal or hex digits denotes, and the
//! digits that denote a given number.

use vstd::prelude::*;
use crate::hex::{hex_digit_char, hex_digit_value, is_hex_text, lemma_hex_digit_round_trip};

verus! {

/// The value of a decimal digit; `None` for every other character.
pub open spec fn decimal_digit_value(c: char) -> Option<u8> {
    if '0' <= c <= '9' {
        Some((c as int - '0' as int) as u8)
    } else {
        None
    }
}

/// Whether `s` is one or more decimal digits.
pub open spec fn is_decimal_text(s: Seq<char>) -> bool {
    &&& s.len() > 0
    &&& forall|i: int| 0 <= i < s.len() ==> (#[trigger] decimal_digit_value(s[i])) is Some
}

/// The number that the decimal digits `s` denote, most significant digit first.
pub open spec fn decimal_value(s: Seq<char>) -> nat
    decreases s.len(),
{
    if s.len() == 0 {
        0
    } else {
        10 * decimal_value(s.drop_last()) + decimal_digit_value(s.last())->0 as nat
    }
}

/// The digit for a value below ten.
pub open spec fn decimal_digit_char(v: nat) -> char {
    ('0' as int + v) as char
}

/// The decimal digits of `n`, without leading zeros; `0` is written `0`.
pub open spec fn decimal_text(n: nat) -> Seq<char>
    decreases n,
{
    if n < 10 {
        seq![decimal_digit_char(n)]
    } else {
        decimal_text(n / 10).push(decimal_digit_char(n % 10))
    }
}

/// Whether `s` is one or more hex digits.
pub open spec fn is_hex_number_text(s: Seq<char>) -> bool {
    s.len() > 0 && is_hex_text(s)
}

/// The number that the hex digits `s` denote, most significant digit first.
pub open spec fn hex_value(s: Seq<char>) -> nat
    decreases s.len(),
{
    if s.len() == 0 {
        0
    } else {
        16 * hex_value(s.drop_last()) + hex_digit_value(s.last())->0 as nat
    }
}

/// The lower-case hex digits of `n`, without leading zeros; `0` is written `0`.
pub open spec fn hex_number_text(n: nat) -> Seq<char>
    decreases n,
{
    if n < 16 {
        seq![hex_digit_char(n as u8)]
    } else {
        hex_number_text(n / 16).push(hex_digit_char((n % 16) as u8))
    }
}

/// The decimal digits of a number are digits, and denote that number.
pub proof fn lemma_decimal_text_round_trip(n: nat)
    ensures
        is_decimal_text(decimal_text(n)),
        decimal_value(decimal_text(n)) == n,
    decreases n,
{
    let s = decimal_text(n);
    if n < 10 {
        assert(s.drop_last() =~= Seq::<char>::empty());
        assert(decimal_value(s.drop_last()) == 0);
    } else {
        lemma_decimal_text_round_trip(n / 10);
        let head = decimal_text(n / 10);
        assert(s.drop_last() =~= head);
        assert(s.last() == decimal_digit_char(n % 10));
        assert forall|i: int| 0 <= i < s.len() implies (#[trigger] decimal_digit_value(
            s[i],
        )) is Some by {
            if i < head.len() {
                assert(s[i] == head[i]);
            }
        }
    }
}

/// The hex digits of a number are digits, and denote that number.
pub proof fn lemma_hex_number_text_round_trip(n: nat)
    ensures
        is_hex_number_text(hex_number_text(n)),
        hex_value(hex_number_text(n)) == n,
    decreases n,
{
    let s = hex_number_text(n);
    if n < 16 {
        assert(s.drop_last() =~= Seq::<char>::empty());
        assert(hex_value(s.drop_last()) == 0);
        lemma_hex_digit_round_trip(n as u8);
    } else {
        lemma_hex_number_text_round_trip(n / 16);
        let head = hex_number_text(n / 16);
        assert(s.drop_last() =~= head);
        assert(s.last() == hex_digit_char((n % 16) as u8));
        lemma_hex_digit_round_trip((n % 16) as u8);
        assert forall|i: int| 0 <= i < s.len() implies (#[trigger] hex_digit_value(
            s[i],
        )) is Some by {
            if i < head.len() {
                assert(s[i] == head[i]);
            }
        }
    }
}

/// Digits that are left out at the end only make the number smaller.
pub proof fn lemma_decimal_value_prefix(s: Seq<char>, k: int)
    requires
        0 <= k <= s.len(),
    ensures
        decimal_value(s.take(k)) <= decimal_value(s),
    decreases s.len() - k,
{
    if k == s.len() {
        assert(s.take(k) =~= s);
    } else {
        lemma_decimal_value_prefix(s, k + 1);
        assert(s.take(k + 1).drop_last() =~= s.take(k));
    }
}

/// Digits that are left out at the end only make the number smaller.
pub proof fn lemma_hex_value_prefix(s: Seq<char>, k: int)
    requires
        0 <= k <= s.len(),
    ensures
        hex_value(s.take(k)) <= hex_value(s),
    decreases s.len() - k,
{
    if k == s.len() {
        assert(s.take(k) =~= s);
    } else {
        lemma_hex_value_prefix(s, k + 1);
        assert(s.take(k + 1).drop_last() =~= s.take(k));
    }
}

} // verus!
