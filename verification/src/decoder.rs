//! The wire decoder: from the strings of a request to typed values. Each function
//! is total: it returns the value, or the reason why the string denotes none.

use vstd::prelude::*;
use vstd::slice::slice_subrange;
use vstd::string::*;
use crate::ascii::{ascii_bytes, ascii_text, is_ascii_bytes, CODE_0, CODE_9};
use crate::error::DecodeError;
use crate::hex::{
    hex_bytes,
    hex_digit,
    hex_digit_value,
    hex_pair_value,
    is_hex_text,
    lemma_hex_text_round_trip,
    prefixed_hex_text,
};
use crate::number::{
    decimal_digit_value,
    decimal_text,
    decimal_value,
    hex_number_text,
    hex_value,
    is_decimal_text,
    is_hex_number_text,
    lemma_decimal_text_round_trip,
    lemma_decimal_value_prefix,
    lemma_hex_number_text_round_trip,
    lemma_hex_value_prefix,
};
use crate::types::{
    uint256_limit,
    view_ok,
    view_ok_some,
    Address,
    BlockTag,
    CallOptions,
    CallOptionsView,
    Uint256,
    H256,
};

verus! {

/// Whether `s` starts with `0x`.
pub open spec fn has_hex_prefix(s: Seq<char>) -> bool {
    s.len() >= 2 && s[0] == '0' && s[1] == 'x'
}

/// The bytes that the hex string `s` denotes. With `size` given the string must
/// hold exactly that many bytes; without, any even number of digits.
pub open spec fn bytes_of_text(s: Seq<char>, size: Option<nat>) -> Result<Seq<u8>, DecodeError> {
    if !has_hex_prefix(s) {
        Err(DecodeError::MissingPrefix)
    } else if size matches Some(n) && s.len() != 2 + 2 * n {
        Err(DecodeError::InvalidLength)
    } else if size is None && s.len() % 2 != 0 {
        Err(DecodeError::OddLength)
    } else if !is_hex_text(s.skip(2)) {
        Err(DecodeError::InvalidDigit)
    } else {
        Ok(hex_bytes(s.skip(2)))
    }
}

/// The address that `s` denotes: `0x` and forty hex digits.
pub open spec fn address_of_text(s: Seq<char>) -> Result<Seq<u8>, DecodeError> {
    bytes_of_text(s, Some(20nat))
}

/// The hash that `s` denotes: `0x` and sixty-four hex digits.
pub open spec fn hash_of_text(s: Seq<char>) -> Result<Seq<u8>, DecodeError> {
    bytes_of_text(s, Some(32nat))
}

/// The bytes that `s` denotes: `0x` and an even number of hex digits.
pub open spec fn raw_bytes_of_text(s: Seq<char>) -> Result<Seq<u8>, DecodeError> {
    bytes_of_text(s, None)
}

/// The boolean that `s` denotes: `true` or `false`, in lower case.
pub open spec fn bool_of_text(s: Seq<char>) -> Result<bool, DecodeError> {
    if s == "true"@ {
        Ok(true)
    } else if s == "false"@ {
        Ok(false)
    } else {
        Err(DecodeError::InvalidBoolean)
    }
}

/// The 64-bit number that digits denote, given whether they are digits at all
/// and the number they stand for.
pub open spec fn number_of_digits(valid: bool, value: nat) -> Result<u64, DecodeError> {
    if !valid {
        Err(DecodeError::InvalidBlockTag)
    } else if value > u64::MAX {
        Err(DecodeError::NumberTooLarge)
    } else {
        Ok(value as u64)
    }
}

/// The block number that `s` denotes: decimal digits, or `0x` and hex digits.
pub open spec fn block_number_of_text(s: Seq<char>) -> Result<u64, DecodeError> {
    if has_hex_prefix(s) {
        number_of_digits(is_hex_number_text(s.skip(2)), hex_value(s.skip(2)))
    } else {
        number_of_digits(is_decimal_text(s), decimal_value(s))
    }
}

/// The block tag that `s` denotes: one of five keywords, or a block number.
pub open spec fn block_tag_of_text(s: Seq<char>) -> Result<BlockTag, DecodeError> {
    if s == "latest"@ {
        Ok(BlockTag::Latest)
    } else if s == "finalized"@ {
        Ok(BlockTag::Finalized)
    } else if s == "safe"@ {
        Ok(BlockTag::Safe)
    } else if s == "earliest"@ {
        Ok(BlockTag::Earliest)
    } else if s == "pending"@ {
        Ok(BlockTag::Pending)
    } else {
        match block_number_of_text(s) {
            Ok(n) => Ok(BlockTag::ExactNumber(n)),
            Err(e) => Err(e),
        }
    }
}

/// The amount that `s` denotes: `0x` and one or more hex digits, whose number
/// 256 bits hold.
pub open spec fn quantity_of_text(s: Seq<char>) -> Result<nat, DecodeError> {
    if !has_hex_prefix(s) {
        Err(DecodeError::MissingPrefix)
    } else if s.len() == 2 {
        Err(DecodeError::InvalidLength)
    } else if !is_hex_text(s.skip(2)) {
        Err(DecodeError::InvalidDigit)
    } else if hex_value(s.skip(2)) >= uint256_limit() {
        Err(DecodeError::NumberTooLarge)
    } else {
        Ok(hex_value(s.skip(2)))
    }
}

/// Call options as they stand in a request: each field a string, or absent.
#[derive(Clone, Debug, PartialEq, Eq)]
pub struct CallRequest {
    pub from: Option<String>,
    pub to: Option<String>,
    pub gas: Option<String>,
    pub gas_price: Option<String>,
    pub value: Option<String>,
    pub data: Option<String>,
}

/// What a field that may be absent denotes: nothing where it is absent, else
/// what `read` makes of it.
pub open spec fn optional_of_text<V>(
    field: Option<String>,
    read: spec_fn(Seq<char>) -> Result<V, DecodeError>,
) -> Result<Option<V>, DecodeError> {
    match field {
        None => Ok(None),
        Some(text) => match read(text@) {
            Ok(v) => Ok(Some(v)),
            Err(e) => Err(e),
        },
    }
}

/// What the recipient field denotes: an address, and it must be there.
pub open spec fn recipient_of_text(field: Option<String>) -> Result<Seq<u8>, DecodeError> {
    match field {
        None => Err(DecodeError::MissingRecipient),
        Some(text) => address_of_text(text@),
    }
}

/// The call options that a request's fields denote. The recipient must be there;
/// each field that is there must be well formed: addresses as addresses, amounts
/// as amounts, the data as bytes. The first field in the order sender, recipient,
/// gas, gas price, value, data that is not decides the error.
pub open spec fn call_options_of_request(request: CallRequest) -> Result<
    CallOptionsView,
    DecodeError,
> {
    let from = optional_of_text(request.from, |s: Seq<char>| address_of_text(s));
    let to = recipient_of_text(request.to);
    let gas = optional_of_text(request.gas, |s: Seq<char>| quantity_of_text(s));
    let gas_price = optional_of_text(request.gas_price, |s: Seq<char>| quantity_of_text(s));
    let value = optional_of_text(request.value, |s: Seq<char>| quantity_of_text(s));
    let data = optional_of_text(request.data, |s: Seq<char>| raw_bytes_of_text(s));
    if from is Err {
        Err(from->Err_0)
    } else if to is Err {
        Err(to->Err_0)
    } else if gas is Err {
        Err(gas->Err_0)
    } else if gas_price is Err {
        Err(gas_price->Err_0)
    } else if value is Err {
        Err(value->Err_0)
    } else if data is Err {
        Err(data->Err_0)
    } else {
        Ok(
            CallOptionsView {
                from: from->Ok_0,
                to: to->Ok_0,
                gas: gas->Ok_0,
                gas_price: gas_price->Ok_0,
                value: value->Ok_0,
                data: data->Ok_0,
            },
        )
    }
}

/// A character outside ASCII is no hex digit, and a string that holds one beyond
/// its first two characters is no hex text from there on.
proof fn lemma_non_ascii_is_not_hex(s: Seq<char>)
    requires
        !vstd::utf8::is_ascii_chars(s),
        has_hex_prefix(s),
    ensures
        !is_hex_text(s.skip(2)),
{
    let i = choose|i: int| 0 <= i < s.len() && !('\0' <= #[trigger] s[i] <= '\u{7f}');
    assert(i >= 2);
    assert(s.skip(2)[i - 2] == s[i]);
    assert(hex_digit_value(s.skip(2)[i - 2]) is None);
}

/// Decodes the hex digits of `bytes`, which are even in number.
fn decode_pairs(bytes: &[u8]) -> (r: Result<Vec<u8>, DecodeError>)
    requires
        bytes@.len() % 2 == 0,
    ensures
        view_ok(r) == if is_hex_text(ascii_text(bytes@)) {
            Ok::<Seq<u8>, DecodeError>(hex_bytes(ascii_text(bytes@)))
        } else {
            Err(DecodeError::InvalidDigit)
        },
{
    let ghost s = ascii_text(bytes@);
    let mut out: Vec<u8> = Vec::new();
    let mut i: usize = 0;
    while i < bytes.len()
        invariant
            i <= bytes.len(),
            i % 2 == 0,
            bytes@.len() % 2 == 0,
            s == ascii_text(bytes@),
            out@.len() == i / 2,
            forall|j: int| 0 <= j < i ==> (#[trigger] hex_digit_value(s[j])) is Some,
            forall|k: int| 0 <= k < out@.len() ==> out@[k] == hex_pair_value(s[2 * k], s[2 * k + 1]),
        decreases bytes.len() - i,
    {
        let high = hex_digit(bytes[i]);
        let low = hex_digit(bytes[i + 1]);
        match (high, low) {
            (Some(h), Some(l)) => {
                out.push(h * 16 + l);
            },
            _ => {
                assert(hex_digit_value(s[i as int]) is None || hex_digit_value(s[i + 1]) is None);
                return Err(DecodeError::InvalidDigit);
            },
        }
        i += 2;
    }
    assert(out@ =~= hex_bytes(s));
    Ok(out)
}

/// Whether the string starts with `0x`.
fn starts_with_prefix(text: &str) -> (r: bool)
    ensures
        r == has_hex_prefix(text@),
{
    text.unicode_len() >= 2 && text.get_char(0) == '0' && text.get_char(1) == 'x'
}

/// The codes of the characters after the prefix, where the string is ASCII. A
/// string that is not holds no hex digits after its prefix.
fn digits_after_prefix(text: &str) -> (r: Option<&[u8]>)
    requires
        has_hex_prefix(text@),
    ensures
        match r {
            Some(body) => ascii_text(body@) == text@.skip(2) && is_ascii_bytes(body@),
            None => !is_hex_text(text@.skip(2)),
        },
{
    if !text.is_ascii() {
        proof {
            lemma_non_ascii_is_not_hex(text@);
        }
        return None;
    }
    let bytes = ascii_bytes(text);
    let body = slice_subrange(bytes, 2, bytes.len());
    assert(ascii_text(body@) =~= text@.skip(2));
    Some(body)
}

/// Decodes a hex string as `bytes_of_text` reads it.
fn decode_hex(text: &str, size: Option<usize>) -> (r: Result<Vec<u8>, DecodeError>)
    ensures
        view_ok(r) == bytes_of_text(
            text@,
            match size {
                Some(n) => Some(n as nat),
                None => None,
            },
        ),
{
    if !starts_with_prefix(text) {
        return Err(DecodeError::MissingPrefix);
    }
    let digits = text.unicode_len() - 2;
    match size {
        Some(n) => {
            if digits % 2 != 0 || digits / 2 != n {
                return Err(DecodeError::InvalidLength);
            }
        },
        None => {
            if digits % 2 != 0 {
                return Err(DecodeError::OddLength);
            }
        },
    }
    match digits_after_prefix(text) {
        Some(body) => decode_pairs(body),
        None => Err(DecodeError::InvalidDigit),
    }
}

/// Decodes a byte string: `0x` and an even number of hex digits of either case.
pub fn decode_raw_bytes(text: &str) -> (r: Result<Vec<u8>, DecodeError>)
    ensures
        view_ok(r) == raw_bytes_of_text(text@),
{
    decode_hex(text, None)
}

/// Decodes an address: `0x` and forty hex digits of either case.
pub fn decode_address(text: &str) -> (r: Result<Address, DecodeError>)
    ensures
        view_ok(r) == address_of_text(text@),
{
    match decode_hex(text, Some(20)) {
        Ok(v) => {
            let mut bytes = [0u8; 20];
            let mut i: usize = 0;
            while i < 20
                invariant
                    i <= 20,
                    v@.len() == 20,
                    forall|j: int| 0 <= j < i ==> bytes@[j] == v@[j],
                decreases 20 - i,
            {
                bytes[i] = v[i];
                i += 1;
            }
            assert(bytes@ =~= v@);
            Ok(Address { bytes })
        },
        Err(e) => Err(e),
    }
}

/// Decodes a hash: `0x` and sixty-four hex digits of either case.
pub fn decode_hash(text: &str) -> (r: Result<H256, DecodeError>)
    ensures
        view_ok(r) == hash_of_text(text@),
{
    match decode_hex(text, Some(32)) {
        Ok(v) => {
            let mut bytes = [0u8; 32];
            let mut i: usize = 0;
            while i < 32
                invariant
                    i <= 32,
                    v@.len() == 32,
                    forall|j: int| 0 <= j < i ==> bytes@[j] == v@[j],
                decreases 32 - i,
            {
                bytes[i] = v[i];
                i += 1;
            }
            assert(bytes@ =~= v@);
            Ok(H256 { bytes })
        },
        Err(e) => Err(e),
    }
}

/// Whether the characters with the codes `bytes` are those of `word`.
fn ascii_equals(bytes: &[u8], word: &str) -> (r: bool)
    requires
        word.is_ascii(),
        is_ascii_bytes(bytes@),
    ensures
        r == (ascii_text(bytes@) == word@),
{
    let other = ascii_bytes(word);
    if bytes.len() != other.len() {
        return false;
    }
    let mut i: usize = 0;
    while i < bytes.len()
        invariant
            i <= bytes.len(),
            bytes@.len() == other@.len(),
            ascii_text(other@) == word@,
            forall|j: int| 0 <= j < i ==> bytes@[j] == other@[j],
        decreases bytes.len() - i,
    {
        if bytes[i] != other[i] {
            proof {
                let mine = ascii_text(bytes@)[i as int];
                let theirs = ascii_text(other@)[i as int];
                assert(mine as u8 == bytes@[i as int] && theirs as u8 == other@[i as int]);
                assert(mine != theirs);
            }
            return false;
        }
        i += 1;
    }
    assert(ascii_text(bytes@) =~= ascii_text(other@));
    true
}

/// Reads decimal digits as a 64-bit number.
fn parse_decimal(bytes: &[u8]) -> (r: Result<u64, DecodeError>)
    ensures
        r == number_of_digits(
            is_decimal_text(ascii_text(bytes@)),
            decimal_value(ascii_text(bytes@)),
        ),
{
    let ghost s = ascii_text(bytes@);
    if bytes.len() == 0 {
        return Err(DecodeError::InvalidBlockTag);
    }
    let mut i: usize = 0;
    while i < bytes.len()
        invariant
            i <= bytes.len(),
            s == ascii_text(bytes@),
            forall|j: int| 0 <= j < i ==> (#[trigger] decimal_digit_value(s[j])) is Some,
        decreases bytes.len() - i,
    {
        if bytes[i] < CODE_0 || bytes[i] > CODE_9 {
            assert(decimal_digit_value(s[i as int]) is None);
            return Err(DecodeError::InvalidBlockTag);
        }
        i += 1;
    }
    let mut value: u64 = 0;
    let mut k: usize = 0;
    while k < bytes.len()
        invariant
            k <= bytes.len(),
            s == ascii_text(bytes@),
            is_decimal_text(s),
            value == decimal_value(s.take(k as int)),
        decreases bytes.len() - k,
    {
        let digit: u64 = (bytes[k] - CODE_0) as u64;
        proof {
            assert(decimal_digit_value(s[k as int]) is Some);
            assert(s.take(k + 1).drop_last() =~= s.take(k as int));
            assert(s.take(k + 1).last() == s[k as int]);
            assert(decimal_value(s.take(k + 1)) == 10 * value + digit);
            lemma_decimal_value_prefix(s, k + 1);
        }
        if value > (u64::MAX - digit) / 10 {
            return Err(DecodeError::NumberTooLarge);
        }
        value = value * 10 + digit;
        k += 1;
    }
    assert(s.take(k as int) =~= s);
    Ok(value)
}

/// Reads hex digits as a 64-bit number.
fn parse_hex(bytes: &[u8]) -> (r: Result<u64, DecodeError>)
    ensures
        r == number_of_digits(
            is_hex_number_text(ascii_text(bytes@)),
            hex_value(ascii_text(bytes@)),
        ),
{
    let ghost s = ascii_text(bytes@);
    if bytes.len() == 0 {
        return Err(DecodeError::InvalidBlockTag);
    }
    let mut i: usize = 0;
    while i < bytes.len()
        invariant
            i <= bytes.len(),
            s == ascii_text(bytes@),
            forall|j: int| 0 <= j < i ==> (#[trigger] hex_digit_value(s[j])) is Some,
        decreases bytes.len() - i,
    {
        if hex_digit(bytes[i]).is_none() {
            assert(hex_digit_value(s[i as int]) is None);
            return Err(DecodeError::InvalidBlockTag);
        }
        i += 1;
    }
    let mut value: u64 = 0;
    let mut k: usize = 0;
    while k < bytes.len()
        invariant
            k <= bytes.len(),
            s == ascii_text(bytes@),
            is_hex_number_text(s),
            value == hex_value(s.take(k as int)),
        decreases bytes.len() - k,
    {
        let digit: u64 = match hex_digit(bytes[k]) {
            Some(d) => d as u64,
            None => 0,
        };
        proof {
            assert(hex_digit_value(s[k as int]) is Some);
            assert(s.take(k + 1).drop_last() =~= s.take(k as int));
            assert(s.take(k + 1).last() == s[k as int]);
            assert(hex_value(s.take(k + 1)) == 16 * value + digit);
            lemma_hex_value_prefix(s, k + 1);
        }
        if value > (u64::MAX - digit) / 16 {
            return Err(DecodeError::NumberTooLarge);
        }
        value = value * 16 + digit;
        k += 1;
    }
    assert(s.take(k as int) =~= s);
    Ok(value)
}

/// Decodes a boolean: `true` or `false`, in lower case and nothing else.
pub fn decode_bool(text: &str) -> (r: Result<bool, DecodeError>)
    ensures
        r == bool_of_text(text@),
{
    proof {
        reveal_strlit("true");
        reveal_strlit("false");
    }
    if !text.is_ascii() {
        return Err(DecodeError::InvalidBoolean);
    }
    let bytes = ascii_bytes(text);
    if ascii_equals(bytes, "true") {
        Ok(true)
    } else if ascii_equals(bytes, "false") {
        Ok(false)
    } else {
        Err(DecodeError::InvalidBoolean)
    }
}

/// A string with a character outside ASCII is no decimal number.
proof fn lemma_non_ascii_is_not_decimal(s: Seq<char>)
    requires
        !vstd::utf8::is_ascii_chars(s),
    ensures
        !is_decimal_text(s),
{
    let i = choose|i: int| 0 <= i < s.len() && !('\0' <= #[trigger] s[i] <= '\u{7f}');
    assert(decimal_digit_value(s[i]) is None);
}

/// Decodes a block number: decimal digits, or `0x` and hex digits, that fit in
/// 64 bits. Leading zeros are accepted; a sign is not.
pub fn decode_block_number(text: &str) -> (r: Result<u64, DecodeError>)
    ensures
        r == block_number_of_text(text@),
{
    if starts_with_prefix(text) {
        match digits_after_prefix(text) {
            Some(body) => parse_hex(body),
            None => Err(DecodeError::InvalidBlockTag),
        }
    } else if text.is_ascii() {
        parse_decimal(ascii_bytes(text))
    } else {
        proof {
            lemma_non_ascii_is_not_decimal(text@);
        }
        Err(DecodeError::InvalidBlockTag)
    }
}

/// Decodes a block tag: `latest`, `finalized`, `safe`, `earliest` or `pending`
/// in lower case, or a block number.
pub fn decode_block_tag(text: &str) -> (r: Result<BlockTag, DecodeError>)
    ensures
        r == block_tag_of_text(text@),
{
    proof {
        reveal_strlit("latest");
        reveal_strlit("finalized");
        reveal_strlit("safe");
        reveal_strlit("earliest");
        reveal_strlit("pending");
    }
    if text.is_ascii() {
        let bytes = ascii_bytes(text);
        if ascii_equals(bytes, "latest") {
            return Ok(BlockTag::Latest);
        } else if ascii_equals(bytes, "finalized") {
            return Ok(BlockTag::Finalized);
        } else if ascii_equals(bytes, "safe") {
            return Ok(BlockTag::Safe);
        } else if ascii_equals(bytes, "earliest") {
            return Ok(BlockTag::Earliest);
        } else if ascii_equals(bytes, "pending") {
            return Ok(BlockTag::Pending);
        }
    }
    match decode_block_number(text) {
        Ok(n) => Ok(BlockTag::ExactNumber(n)),
        Err(e) => Err(e),
    }
}

/// Reads hex digits as a 256-bit amount.
fn parse_quantity(bytes: &[u8]) -> (r: Result<Uint256, DecodeError>)
    ensures
        view_ok(r) == if !is_hex_text(ascii_text(bytes@)) {
            Err::<nat, DecodeError>(DecodeError::InvalidDigit)
        } else if hex_value(ascii_text(bytes@)) >= uint256_limit() {
            Err(DecodeError::NumberTooLarge)
        } else {
            Ok(hex_value(ascii_text(bytes@)))
        },
{
    let ghost s = ascii_text(bytes@);
    let mut i: usize = 0;
    while i < bytes.len()
        invariant
            i <= bytes.len(),
            s == ascii_text(bytes@),
            forall|j: int| 0 <= j < i ==> (#[trigger] hex_digit_value(s[j])) is Some,
        decreases bytes.len() - i,
    {
        if hex_digit(bytes[i]).is_none() {
            assert(hex_digit_value(s[i as int]) is None);
            return Err(DecodeError::InvalidDigit);
        }
        i += 1;
    }
    let mut value = Uint256::zero();
    let mut k: usize = 0;
    while k < bytes.len()
        invariant
            k <= bytes.len(),
            s == ascii_text(bytes@),
            is_hex_text(s),
            value@ == hex_value(s.take(k as int)),
        decreases bytes.len() - k,
    {
        let digit: u8 = match hex_digit(bytes[k]) {
            Some(d) => d,
            None => 0,
        };
        proof {
            assert(hex_digit_value(s[k as int]) is Some);
            assert(s.take(k + 1).drop_last() =~= s.take(k as int));
            assert(s.take(k + 1).last() == s[k as int]);
            assert(hex_value(s.take(k + 1)) == 16 * value@ + digit);
            lemma_hex_value_prefix(s, k + 1);
        }
        match value.push_hex_digit(digit) {
            Some(next) => {
                value = next;
            },
            None => {
                return Err(DecodeError::NumberTooLarge);
            },
        }
        k += 1;
    }
    assert(s.take(k as int) =~= s);
    Ok(value)
}

/// Decodes an amount: `0x` and one or more hex digits of either case, whose
/// number 256 bits hold. Leading zeros are accepted.
pub fn decode_quantity(text: &str) -> (r: Result<Uint256, DecodeError>)
    ensures
        view_ok(r) == quantity_of_text(text@),
{
    if !starts_with_prefix(text) {
        return Err(DecodeError::MissingPrefix);
    }
    if text.unicode_len() == 2 {
        return Err(DecodeError::InvalidLength);
    }
    match digits_after_prefix(text) {
        Some(body) => parse_quantity(body),
        None => Err(DecodeError::InvalidDigit),
    }
}

/// Decodes an address that may be absent.
fn decode_optional_address(field: &Option<String>) -> (r: Result<Option<Address>, DecodeError>)
    ensures
        view_ok_some(r) == optional_of_text(*field, |s: Seq<char>| address_of_text(s)),
{
    match field {
        None => Ok(None),
        Some(text) => match decode_address(text.as_str()) {
            Ok(v) => Ok(Some(v)),
            Err(e) => Err(e),
        },
    }
}

/// Decodes an amount that may be absent.
fn decode_optional_quantity(field: &Option<String>) -> (r: Result<Option<Uint256>, DecodeError>)
    ensures
        view_ok_some(r) == optional_of_text(*field, |s: Seq<char>| quantity_of_text(s)),
{
    match field {
        None => Ok(None),
        Some(text) => match decode_quantity(text.as_str()) {
            Ok(v) => Ok(Some(v)),
            Err(e) => Err(e),
        },
    }
}

/// Decodes bytes that may be absent.
fn decode_optional_bytes(field: &Option<String>) -> (r: Result<Option<Vec<u8>>, DecodeError>)
    ensures
        view_ok_some(r) == optional_of_text(*field, |s: Seq<char>| raw_bytes_of_text(s)),
{
    match field {
        None => Ok(None),
        Some(text) => match decode_raw_bytes(text.as_str()) {
            Ok(v) => Ok(Some(v)),
            Err(e) => Err(e),
        },
    }
}

/// Decodes call options: the recipient must be there, and every field that is
/// there must be well formed. What the fields mean is not looked at.
pub fn decode_call_options(request: &CallRequest) -> (r: Result<CallOptions, DecodeError>)
    ensures
        view_ok(r) == call_options_of_request(*request),
{
    let from = match decode_optional_address(&request.from) {
        Ok(v) => v,
        Err(e) => return Err(e),
    };
    let to = match &request.to {
        None => return Err(DecodeError::MissingRecipient),
        Some(text) => match decode_address(text.as_str()) {
            Ok(v) => v,
            Err(e) => return Err(e),
        },
    };
    let gas = match decode_optional_quantity(&request.gas) {
        Ok(v) => v,
        Err(e) => return Err(e),
    };
    let gas_price = match decode_optional_quantity(&request.gas_price) {
        Ok(v) => v,
        Err(e) => return Err(e),
    };
    let value = match decode_optional_quantity(&request.value) {
        Ok(v) => v,
        Err(e) => return Err(e),
    };
    let data = match decode_optional_bytes(&request.data) {
        Ok(v) => v,
        Err(e) => return Err(e),
    };
    Ok(CallOptions { from, to, gas, gas_price, value, data })
}

/// A string is an address exactly when it is `0x` and forty hex digits: a string
/// of any other length, or with any other character in it, is rejected.
pub proof fn lemma_address_accepted_iff(s: Seq<char>)
    ensures
        address_of_text(s) is Ok <==> s.len() == 42 && has_hex_prefix(s) && is_hex_text(s.skip(2)),
        address_of_text(s) is Ok ==> address_of_text(s)->Ok_0.len() == 20,
{
}

/// The text written for an address decodes to that address.
pub proof fn lemma_address_text_round_trip(bytes: Seq<u8>)
    requires
        bytes.len() == 20,
    ensures
        prefixed_hex_text(bytes).len() == 42,
        address_of_text(prefixed_hex_text(bytes)) == Ok::<Seq<u8>, DecodeError>(bytes),
{
    lemma_hex_text_round_trip(bytes);
    assert(prefixed_hex_text(bytes).skip(2) =~= crate::hex::hex_text(bytes));
}

/// A valid address string, decoded, written again and decoded again, gives the
/// same twenty bytes as the first decoding.
pub proof fn lemma_address_round_trip(s: Seq<char>)
    requires
        s.len() == 42,
        has_hex_prefix(s),
        is_hex_text(s.skip(2)),
    ensures
        address_of_text(s) is Ok,
        address_of_text(prefixed_hex_text(address_of_text(s)->Ok_0)) == address_of_text(s),
{
    lemma_address_accepted_iff(s);
    lemma_address_text_round_trip(address_of_text(s)->Ok_0);
}

/// The text written for a hash decodes to that hash.
pub proof fn lemma_hash_text_round_trip(bytes: Seq<u8>)
    requires
        bytes.len() == 32,
    ensures
        hash_of_text(prefixed_hex_text(bytes)) == Ok::<Seq<u8>, DecodeError>(bytes),
{
    lemma_hex_text_round_trip(bytes);
    assert(prefixed_hex_text(bytes).skip(2) =~= crate::hex::hex_text(bytes));
}

/// The text written for any bytes decodes to those bytes.
pub proof fn lemma_raw_bytes_text_round_trip(bytes: Seq<u8>)
    ensures
        raw_bytes_of_text(prefixed_hex_text(bytes)) == Ok::<Seq<u8>, DecodeError>(bytes),
{
    lemma_hex_text_round_trip(bytes);
    assert(prefixed_hex_text(bytes).skip(2) =~= crate::hex::hex_text(bytes));
}

/// A hex string with an odd number of digits is rejected as such, whatever the
/// digits are.
pub proof fn lemma_odd_length_rejected(s: Seq<char>)
    requires
        has_hex_prefix(s),
        s.len() % 2 == 1,
    ensures
        raw_bytes_of_text(s) == Err::<Seq<u8>, DecodeError>(DecodeError::OddLength),
{
}

/// A block number written in decimal, or as `0x` and its hex digits, decodes to
/// the tag of that number.
pub proof fn lemma_block_number_round_trip(n: u64)
    ensures
        block_tag_of_text(decimal_text(n as nat)) == Ok::<BlockTag, DecodeError>(
            BlockTag::ExactNumber(n),
        ),
        block_tag_of_text(seq!['0', 'x'] + hex_number_text(n as nat)) == Ok::<
            BlockTag,
            DecodeError,
        >(BlockTag::ExactNumber(n)),
{
    reveal_strlit("latest");
    reveal_strlit("finalized");
    reveal_strlit("safe");
    reveal_strlit("earliest");
    reveal_strlit("pending");
    let d = decimal_text(n as nat);
    lemma_decimal_text_round_trip(n as nat);
    assert(decimal_digit_value(d[0]) is Some);
    if d.len() >= 2 {
        assert(decimal_digit_value(d[1]) is Some);
    }
    let h = seq!['0', 'x'] + hex_number_text(n as nat);
    lemma_hex_number_text_round_trip(n as nat);
    assert(h.skip(2) =~= hex_number_text(n as nat));
    assert(h[0] == '0' && h[1] == 'x');
}

/// An amount written as `0x` and its hex digits decodes to that amount where
/// 256 bits hold it, and is rejected as too large where they do not.
pub proof fn lemma_quantity_round_trip(n: nat)
    ensures
        quantity_of_text(seq!['0', 'x'] + hex_number_text(n)) == if n < uint256_limit() {
            Ok::<nat, DecodeError>(n)
        } else {
            Err(DecodeError::NumberTooLarge)
        },
{
    let h = seq!['0', 'x'] + hex_number_text(n);
    lemma_hex_number_text_round_trip(n);
    assert(h.skip(2) =~= hex_number_text(n));
    assert(h[0] == '0' && h[1] == 'x');
}

/// A number that does not fit in 64 bits is rejected as too large, in decimal
/// and in hex.
pub proof fn lemma_block_number_too_large(n: nat)
    requires
        n > u64::MAX,
    ensures
        block_tag_of_text(decimal_text(n)) == Err::<BlockTag, DecodeError>(
            DecodeError::NumberTooLarge,
        ),
        block_tag_of_text(seq!['0', 'x'] + hex_number_text(n)) == Err::<BlockTag, DecodeError>(
            DecodeError::NumberTooLarge,
        ),
{
    reveal_strlit("latest");
    reveal_strlit("finalized");
    reveal_strlit("safe");
    reveal_strlit("earliest");
    reveal_strlit("pending");
    let d = decimal_text(n);
    lemma_decimal_text_round_trip(n);
    assert(decimal_digit_value(d[0]) is Some);
    if d.len() >= 2 {
        assert(decimal_digit_value(d[1]) is Some);
    }
    let h = seq!['0', 'x'] + hex_number_text(n);
    lemma_hex_number_text_round_trip(n);
    assert(h.skip(2) =~= hex_number_text(n));
    assert(h[0] == '0' && h[1] == 'x');
}

} // verus!
