//! The layer between the wire values of an Ethereum-style JSON-RPC interface and
//! the typed calls of a light client: parameters are decoded, the backend call to
//! issue is chosen, and the backend's answer is formatted for the wire.
//!
//! - `decoder`: from the strings of a request to typed values.
//! - `dispatch`: for each method, the call to make and the response to give.
//! - `encoder`: from the typed values of an answer to the strings of a response.
//! - `error`: how a request fails, with code and message.
//! - `types`: the typed values.
//! - `hex`, `number`, `ascii`: the digits, numbers and characters underneath.

pub mod ascii;
pub mod decoder;
pub mod dispatch;
pub mod encoder;
pub mod error;
pub mod hex;
pub mod number;
pub mod types;
