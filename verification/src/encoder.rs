//! The wire encoder: from the typed values of a backend answer to the strings of
//! a response.

use vstd::prelude::*;
use vstd::pervasive::unreached;
use vstd::string::*;
use crate::ascii::{
    ascii_bytes,
    ascii_string,
    ascii_text,
    is_ascii_bytes,
    CODE_0,
    CODE_LOWER_X,
    CODE_POINT,
};
use crate::hex::{hex_digit_char, hex_digit_code, hex_text, prefixed_hex_text};
use crate::number::{
    decimal_digit_char,
    decimal_digit_value,
    decimal_text,
    lemma_decimal_text_round_trip,
};
use crate::types::Uint256;

verus! {

/// The number of wei in one ether.
pub const WEI_PER_ETHER: u64 = 1_000_000_000_000_000_000;

/// The number of decimal places between wei and ether.
pub const ETHER_DECIMALS: usize = 18;

/// `s` with zeros put in front until it is `width` long.
pub open spec fn zero_padded(s: Seq<char>, width: nat) -> Seq<char> {
    if s.len() >= width {
        s
    } else {
        Seq::new((width - s.len()) as nat, |i: int| '0') + s
    }
}

/// An amount of wei in ether, with all eighteen decimal places written.
pub open spec fn ether_units_text(wei: nat) -> Seq<char> {
    decimal_text(wei / (WEI_PER_ETHER as nat)) + seq!['.'] + zero_padded(
        decimal_text(wei % (WEI_PER_ETHER as nat)),
        ETHER_DECIMALS as nat,
    )
}

/// `s` without the zeros at its end.
pub open spec fn without_trailing_zeros(s: Seq<char>) -> Seq<char>
    decreases s.len(),
{
    if s.len() > 0 && s.last() == '0' {
        without_trailing_zeros(s.drop_last())
    } else {
        s
    }
}

/// `s` without the zeros at its end, and without the point that they leave bare.
pub open spec fn trimmed_decimal(s: Seq<char>) -> Seq<char> {
    let t = without_trailing_zeros(s);
    if t.len() > 0 && t.last() == '.' {
        t.drop_last()
    } else {
        t
    }
}

/// The decimal places of an amount of wei in ether, as far as they are not zero
/// to the end.
pub open spec fn fraction_text(wei: nat) -> Seq<char> {
    without_trailing_zeros(
        zero_padded(decimal_text(wei % (WEI_PER_ETHER as nat)), ETHER_DECIMALS as nat),
    )
}

/// A balance of `wei` in ether: the whole ethers in decimal, and, unless the
/// balance is a whole number of ethers, a point and the decimal places up to the
/// last that is not zero. Nothing is rounded.
pub open spec fn balance_text(wei: nat) -> Seq<char> {
    let whole = decimal_text(wei / (WEI_PER_ETHER as nat));
    let fraction = fraction_text(wei);
    if fraction.len() == 0 {
        whole
    } else {
        whole + seq!['.'] + fraction
    }
}

/// An outside error type: why a unit conversion failed.
#[verifier::external_type_specification]
#[verifier::external_body]
pub struct ExConversionError(ethers::utils::ConversionError);

/// `ethers::utils::format_units` on an unsigned 256-bit amount. The contract
/// speaks of the unit `ether` only: for that unit the function does not fail,
/// and writes the quotient by 10^18 in decimal, a point, and the remainder in
/// decimal, padded with zeros to eighteen places. Of other units nothing is
/// claimed.
#[verifier::external_body]
fn format_units(amount: &Uint256, units: &str) -> (r: Result<
    String,
    ethers::utils::ConversionError,
>)
    ensures
        units@ == "ether"@ ==> r is Ok && r->Ok_0@ == ether_units_text(amount@),
{
    ethers::utils::format_units(ethers::types::U256(amount.limbs), units)
}

/// `to_string` of `ethers::types::U256`: the amount in decimal, without leading
/// zeros.
#[verifier::external_body]
fn u256_to_string(amount: &Uint256) -> (r: String)
    ensures
        r@ == decimal_text(amount@),
{
    ethers::types::U256(amount.limbs).to_string()
}

/// Zeros only are all trailing zeros.
proof fn lemma_zeros_trim_to_nothing(s: Seq<char>)
    requires
        forall|i: int| 0 <= i < s.len() ==> s[i] == '0',
    ensures
        without_trailing_zeros(s).len() == 0,
    decreases s.len(),
{
    if s.len() > 0 {
        lemma_zeros_trim_to_nothing(s.drop_last());
    }
}

/// Trimming a number with decimal places trims the decimal places.
proof fn lemma_trim_after_point(whole: Seq<char>, fraction: Seq<char>)
    requires
        forall|i: int| 0 <= i < fraction.len() ==> '0' <= #[trigger] fraction[i] <= '9',
    ensures
        trimmed_decimal(whole + seq!['.'] + fraction) == if without_trailing_zeros(
            fraction,
        ).len() == 0 {
            whole
        } else {
            whole + seq!['.'] + without_trailing_zeros(fraction)
        },
    decreases fraction.len(),
{
    let s = whole + seq!['.'] + fraction;
    if fraction.len() == 0 {
        assert(s.last() == '.');
        assert(s.drop_last() =~= whole);
    } else if fraction.last() == '0' {
        assert(s.last() == '0');
        assert(s.drop_last() =~= whole + seq!['.'] + fraction.drop_last());
        lemma_trim_after_point(whole, fraction.drop_last());
    } else {
        assert(s.last() == fraction.last());
    }
}

/// The decimal places of an ether amount are decimal digits.
proof fn lemma_padded_digits(wei: nat)
    ensures
        forall|i: int|
            0 <= i < zero_padded(decimal_text(wei), ETHER_DECIMALS as nat).len() ==> '0'
                <= #[trigger] zero_padded(decimal_text(wei), ETHER_DECIMALS as nat)[i] <= '9',
{
    lemma_decimal_text_round_trip(wei);
    let d = decimal_text(wei);
    let p = zero_padded(d, ETHER_DECIMALS as nat);
    assert forall|i: int| 0 <= i < p.len() implies '0' <= #[trigger] p[i] <= '9' by {
        if d.len() >= 18 {
            assert(decimal_digit_value(d[i]) is Some);
        } else if i >= 18 - d.len() {
            assert(p[i] == d[i - (18 - d.len())]);
            assert(decimal_digit_value(d[i - (18 - d.len())]) is Some);
        }
    }
}

/// The text of an ether amount with all its decimal places, trimmed, is the
/// balance text; and it is made of ASCII characters.
proof fn lemma_ether_units_trimmed(wei: nat)
    ensures
        trimmed_decimal(ether_units_text(wei)) == balance_text(wei),
        vstd::utf8::is_ascii_chars(ether_units_text(wei)),
{
    let whole = decimal_text(wei / (WEI_PER_ETHER as nat));
    let rest = wei % (WEI_PER_ETHER as nat);
    let places = zero_padded(decimal_text(rest), ETHER_DECIMALS as nat);
    lemma_padded_digits(rest);
    lemma_trim_after_point(whole, places);
    lemma_decimal_text_round_trip(wei / (WEI_PER_ETHER as nat));
    let s = ether_units_text(wei);
    assert forall|i: int| 0 <= i < s.len() implies '\0' <= #[trigger] s[i] <= '\u{7f}' by {
        if i < whole.len() {
            assert(decimal_digit_value(whole[i]) is Some);
        } else if i > whole.len() {
            assert(s[i] == places[i - whole.len() - 1]);
        }
    }
}

/// A balance that is a whole number of ethers is written as that number alone.
pub proof fn lemma_whole_ether_balance(wei: nat)
    requires
        wei % (WEI_PER_ETHER as nat) == 0,
    ensures
        balance_text(wei) == decimal_text(wei / (WEI_PER_ETHER as nat)),
{
    let places = zero_padded(decimal_text(0), ETHER_DECIMALS as nat);
    assert forall|i: int| 0 <= i < places.len() implies places[i] == '0' by {}
    lemma_zeros_trim_to_nothing(places);
}

/// Removes the zeros at the end of a number with decimal places, and the point
/// if no decimal place is left.
fn trim_fraction(text: &str) -> (r: String)
    requires
        text.is_ascii(),
    ensures
        r@ == trimmed_decimal(text@),
{
    let bytes = ascii_bytes(text);
    let ghost s = text@;
    let mut end: usize = bytes.len();
    assert(s.take(end as int) =~= s);
    while end > 0 && bytes[end - 1] == CODE_0
        invariant
            end <= bytes.len(),
            bytes@.len() == s.len(),
            ascii_text(bytes@) == s,
            without_trailing_zeros(s) == without_trailing_zeros(s.take(end as int)),
        decreases end,
    {
        proof {
            assert(s.take(end as int).last() == s[end - 1]);
            assert(s.take(end as int).drop_last() =~= s.take(end - 1));
        }
        end -= 1;
    }
    proof {
        if end > 0 {
            assert(s.take(end as int).last() == s[end - 1]);
            assert(s[end - 1] == bytes@[end - 1] as char);
        }
        assert(without_trailing_zeros(s) == s.take(end as int));
    }
    if end > 0 && bytes[end - 1] == CODE_POINT {
        proof {
            assert(s.take(end as int).drop_last() =~= s.take(end - 1));
        }
        end -= 1;
    }
    let kept = text.substring_ascii(0, end);
    assert(kept@ =~= s.take(end as int));
    String::from_str(kept)
}

/// Formats a balance of wei in ether, scaled by 10^18 with nothing rounded:
/// `1000000000000000000` wei is `1`, and half as much again is `1.5`.
pub fn format_balance(balance: &Uint256) -> (text: String)
    ensures
        text@ == balance_text(balance@),
{
    match format_units(balance, "ether") {
        Ok(units) => {
            proof {
                lemma_ether_units_trimmed(balance@);
            }
            trim_fraction(units.as_str())
        },
        Err(_) => unreached(),
    }
}

/// Formats an amount as a decimal string.
pub fn format_amount(amount: &Uint256) -> (text: String)
    ensures
        text@ == decimal_text(amount@),
{
    u256_to_string(amount)
}

/// Formats a count as a decimal string.
pub fn format_count(count: u64) -> (text: String)
    ensures
        text@ == decimal_text(count as nat),
{
    let mut digits: Vec<u8> = Vec::new();
    let mut rest: u64 = count;
    while rest >= 10
        invariant
            is_ascii_bytes(digits@),
            decimal_text(count as nat) == decimal_text(rest as nat) + ascii_text(digits@).reverse(),
        decreases rest,
    {
        let ghost before = digits@;
        let digit: u8 = (rest % 10) as u8;
        digits.push(CODE_0 + digit);
        proof {
            let c = decimal_digit_char((rest % 10) as nat);
            assert((CODE_0 + digit) as char == c);
            assert(ascii_text(digits@).reverse() =~= seq![c] + ascii_text(before).reverse());
            assert(decimal_text(rest as nat) == decimal_text((rest / 10) as nat).push(c));
            assert(decimal_text((rest / 10) as nat).push(c) + ascii_text(before).reverse()
                =~= decimal_text((rest / 10) as nat) + (seq![c] + ascii_text(before).reverse()));
        }
        rest = rest / 10;
    }
    let ghost before = digits@;
    digits.push(CODE_0 + rest as u8);
    proof {
        let c = decimal_digit_char(rest as nat);
        assert((CODE_0 + rest as u8) as char == c);
        assert(ascii_text(digits@).reverse() =~= seq![c] + ascii_text(before).reverse());
        assert(decimal_text(rest as nat) =~= seq![c]);
    }
    let mut out: Vec<u8> = Vec::new();
    let mut k: usize = digits.len();
    while k > 0
        invariant
            k <= digits.len(),
            is_ascii_bytes(digits@),
            is_ascii_bytes(out@),
            out@.len() == digits.len() - k,
            forall|j: int| 0 <= j < out@.len() ==> out@[j] == digits@[digits.len() - 1 - j],
        decreases k,
    {
        k -= 1;
        out.push(digits[k]);
    }
    assert(ascii_text(out@) =~= ascii_text(digits@).reverse());
    ascii_string(out.as_slice())
}

/// Formats bytes as `0x` and two lower-case hex digits for each byte.
pub fn encode_hex(bytes: &[u8]) -> (text: String)
    ensures
        text@ == prefixed_hex_text(bytes@),
{
    let mut out: Vec<u8> = Vec::new();
    out.push(CODE_0);
    out.push(CODE_LOWER_X);
    let mut i: usize = 0;
    while i < bytes.len()
        invariant
            i <= bytes.len(),
            is_ascii_bytes(out@),
            ascii_text(out@) == prefixed_hex_text(bytes@.take(i as int)),
        decreases bytes.len() - i,
    {
        let ghost before = out@;
        let high = hex_digit_code(bytes[i] / 16);
        let low = hex_digit_code(bytes[i] % 16);
        out.push(high);
        out.push(low);
        proof {
            let done = bytes@.take(i as int);
            let more = bytes@.take(i + 1);
            assert(more.len() == i + 1);
            assert(ascii_text(out@) =~= ascii_text(before).push(high as char).push(low as char));
            assert(hex_text(more) =~= hex_text(done).push(hex_digit_char(bytes@[i as int] / 16)).push(
                hex_digit_char(bytes@[i as int] % 16),
            )) by {
                assert forall|j: int| 0 <= j < 2 * i implies hex_text(more)[j] == hex_text(
                    done,
                )[j] by {
                    assert(more[j / 2] == done[j / 2]);
                }
            }
            assert(prefixed_hex_text(more) =~= prefixed_hex_text(done).push(high as char).push(
                low as char,
            ));
        }
        i += 1;
    }
    assert(bytes@.take(i as int) =~= bytes@);
    ascii_string(out.as_slice())
}

} // verus!
