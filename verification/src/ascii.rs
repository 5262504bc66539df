//! ASCII text as bytes: every wire value this library reads or writes is made of
//! ASCII characters, so the work is done on bytes and stated over characters.

use vstd::prelude::*;
use vstd::string::*;

verus! {

/// The code of `0`.
pub const CODE_0: u8 = 48;

/// The code of `9`.
pub const CODE_9: u8 = 57;

/// The code of `A`.
pub const CODE_UPPER_A: u8 = 65;

/// The code of `F`.
pub const CODE_UPPER_F: u8 = 70;

/// The code of `a`.
pub const CODE_LOWER_A: u8 = 97;

/// The code of `f`.
pub const CODE_LOWER_F: u8 = 102;

/// The code of `x`.
pub const CODE_LOWER_X: u8 = 120;

/// The code of the decimal point.
pub const CODE_POINT: u8 = 46;

/// The characters whose codes are `bytes`.
pub open spec fn ascii_text(bytes: Seq<u8>) -> Seq<char> {
    Seq::new(bytes.len(), |i: int| bytes[i] as char)
}

/// Whether every byte is an ASCII code.
pub open spec fn is_ascii_bytes(bytes: Seq<u8>) -> bool {
    forall|i: int| 0 <= i < bytes.len() ==> (#[trigger] bytes[i]) < 128
}

/// `String::push` appends the character to the end of the string.
pub assume_specification[ String::push ](text: &mut String, c: char)
    ensures
        final(text)@ == old(text)@.push(c),
;

/// The bytes of an ASCII string: one byte for each character, holding its code.
pub(crate) fn ascii_bytes(text: &str) -> (bytes: &[u8])
    requires
        text.is_ascii(),
    ensures
        bytes@.len() == text@.len(),
        is_ascii_bytes(bytes@),
        ascii_text(bytes@) == text@,
{
    broadcast use is_ascii_spec_bytes;

    let bytes = text.as_bytes();
    assert(ascii_text(bytes@) =~= text@);
    bytes
}

/// The string whose characters have the codes `bytes`.
pub(crate) fn ascii_string(bytes: &[u8]) -> (text: String)
    requires
        is_ascii_bytes(bytes@),
    ensures
        text@ == ascii_text(bytes@),
{
    let mut text = String::new();
    let mut i: usize = 0;
    while i < bytes.len()
        invariant
            i <= bytes.len(),
            text@ == ascii_text(bytes@.take(i as int)),
        decreases bytes.len() - i,
    {
        text.push(bytes[i] as char);
        i += 1;
        assert(text@ =~= ascii_text(bytes@.take(i as int)));
    }
    assert(bytes@.take(i as int) =~= bytes@);
    text
}

} // verus!
