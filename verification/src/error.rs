//! The errors a request can end with, and the code and message that each is
//! reported with.

use vstd::prelude::*;
use vstd::string::*;

verus! {

/// Why a wire parameter could not be decoded.
#[derive(Clone, Copy, Debug, PartialEq, Eq, Structural)]
pub enum DecodeError {
    /// A hex value does not start with `0x`.
    MissingPrefix,
    /// A fixed-size hex value has the wrong number of digits.
    InvalidLength,
    /// A hex byte string has an odd number of digits.
    OddLength,
    /// A character of a hex value is not a hex digit.
    InvalidDigit,
    /// A block tag is neither a keyword nor an integer literal.
    InvalidBlockTag,
    /// A number does not fit: a block number in 64 bits, an amount in 256.
    NumberTooLarge,
    /// A boolean is neither `true` nor `false`.
    InvalidBoolean,
    /// Call options name no recipient.
    MissingRecipient,
}

/// What the light client said when it could not answer.
#[derive(Clone, Debug, PartialEq, Eq)]
pub struct BackendError {
    pub message: String,
}

/// How a request fails. Every failure is reported to the caller of the one
/// method; none ends the process.
#[derive(Clone, Debug, PartialEq, Eq)]
pub enum RpcError {
    /// A parameter was malformed.
    Decode(DecodeError),
    /// The light client could not answer.
    Backend(BackendError),
    /// The block that a count was asked of does not exist.
    BlockNotFound,
    /// A transaction index is not below the number of transactions.
    IndexOutOfRange,
}

/// JSON-RPC's code for invalid parameters.
pub const INVALID_PARAMS: i32 = -32602;

/// JSON-RPC's code for an internal error.
pub const INTERNAL_ERROR: i32 = -32603;

/// The server-defined code for a block that does not exist.
pub const BLOCK_NOT_FOUND: i32 = -32001;

/// The server-defined code for an index past the end of a list.
pub const INDEX_OUT_OF_RANGE: i32 = -32002;

impl DecodeError {
    /// The text that describes the failure.
    pub open spec fn spec_message(self) -> Seq<char> {
        match self {
            DecodeError::MissingPrefix => "hex value must start with 0x"@,
            DecodeError::InvalidLength => "hex value has the wrong length"@,
            DecodeError::OddLength => "hex value has an odd number of digits"@,
            DecodeError::InvalidDigit => "hex value holds a character that is no hex digit"@,
            DecodeError::InvalidBlockTag => "block tag is neither a keyword nor a number"@,
            DecodeError::NumberTooLarge => "number is too large"@,
            DecodeError::InvalidBoolean => "boolean must be true or false"@,
            DecodeError::MissingRecipient => "call options must name a recipient"@,
        }
    }

    /// The text that describes the failure.
    pub fn message(self) -> (text: String)
        ensures
            text@ == self.spec_message(),
    {
        match self {
            DecodeError::MissingPrefix => String::from_str("hex value must start with 0x"),
            DecodeError::InvalidLength => String::from_str("hex value has the wrong length"),
            DecodeError::OddLength => String::from_str("hex value has an odd number of digits"),
            DecodeError::InvalidDigit => String::from_str(
                "hex value holds a character that is no hex digit",
            ),
            DecodeError::InvalidBlockTag => String::from_str(
                "block tag is neither a keyword nor a number",
            ),
            DecodeError::NumberTooLarge => String::from_str("number is too large"),
            DecodeError::InvalidBoolean => String::from_str("boolean must be true or false"),
            DecodeError::MissingRecipient => String::from_str(
                "call options must name a recipient",
            ),
        }
    }
}

impl RpcError {
    /// The code the error is reported with.
    pub open spec fn spec_code(self) -> i32 {
        match self {
            RpcError::Decode(_) => INVALID_PARAMS,
            RpcError::Backend(_) => INTERNAL_ERROR,
            RpcError::BlockNotFound => BLOCK_NOT_FOUND,
            RpcError::IndexOutOfRange => INDEX_OUT_OF_RANGE,
        }
    }

    /// The message the error is reported with.
    pub open spec fn spec_message(self) -> Seq<char> {
        match self {
            RpcError::Decode(e) => e.spec_message(),
            RpcError::Backend(e) => e.message@,
            RpcError::BlockNotFound => "block not found"@,
            RpcError::IndexOutOfRange => "index out of range"@,
        }
    }

    /// The code the error is reported with.
    pub fn code(&self) -> (code: i32)
        ensures
            code == self.spec_code(),
    {
        match self {
            RpcError::Decode(_) => INVALID_PARAMS,
            RpcError::Backend(_) => INTERNAL_ERROR,
            RpcError::BlockNotFound => BLOCK_NOT_FOUND,
            RpcError::IndexOutOfRange => INDEX_OUT_OF_RANGE,
        }
    }

    /// The message the error is reported with.
    pub fn message(&self) -> (text: String)
        ensures
            text@ == self.spec_message(),
    {
        match self {
            RpcError::Decode(e) => e.message(),
            RpcError::Backend(e) => e.message.clone(),
            RpcError::BlockNotFound => String::from_str("block not found"),
            RpcError::IndexOutOfRange => String::from_str("index out of range"),
        }
    }
}

/// The four kinds of failure have four codes: the code tells which kind it was.
/// Every decoding failure, whatever its reason, has the code for invalid
/// parameters.
pub proof fn lemma_code_tells_the_kind(a: RpcError, b: RpcError)
    ensures
        a.spec_code() == b.spec_code() <==> (a is Decode && b is Decode) || (a is Backend
            && b is Backend) || (a is BlockNotFound && b is BlockNotFound) || (a is IndexOutOfRange
            && b is IndexOutOfRange),
        a is Decode ==> a.spec_code() == INVALID_PARAMS,
{
}

} // verus!
