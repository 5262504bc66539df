//! The dispatcher: for each method, the backend call that a request leads to, and
//! the response that the backend's answer leads to.
//!
//! A request is handled in three steps. The function named after the method
//! decodes the parameters and returns the one call to make, or the error that
//! ends the request before any call is made. The caller makes that call on the
//! shared light client, under the access that the call asks for. The `_reply`
//! function for the kind of answer turns the answer into the response.
//!
//! | method | call | reply |
//! |---|---|---|
//! | `eth_chainId` | `eth_chain_id` | `number_reply` |
//! | `eth_blockNumber` | `eth_block_number` | `number_reply` |
//! | `eth_gasPrice` | `eth_gas_price` | `amount_reply` |
//! | `eth_maxPriorityFeePerGas` | `eth_max_priority_fee_per_gas` | `amount_reply` |
//! | `eth_syncing` | `eth_syncing` | `value_reply` |
//! | `eth_coinbase` | `eth_coinbase` | `value_reply` |
//! | `eth_getBlockByHash` | `eth_get_block_by_hash` | `block_reply` |
//! | `eth_getBlockByNumber` | `eth_get_block_by_number` | `block_reply` |
//! | `eth_getBlockTransactionCountByHash` | `eth_get_block_transaction_count_by_hash` | `transaction_count_reply` |
//! | `eth_getBlockTransactionCountByNumber` | `eth_get_block_transaction_count_by_number` | `transaction_count_reply` |
//! | `eth_getBalance` | `eth_get_balance` | `balance_reply` |
//! | `eth_getTransactionCount` | `eth_get_transaction_count` | `number_reply` |
//! | `eth_getCode` | `eth_get_code` | `value_reply` |
//! | `eth_sendRawTransaction` | `eth_send_raw_transaction` | `sent_transaction_reply` |
//! | `eth_call` | `eth_call` | `call_reply` |
//! | `eth_estimateGas` | `eth_estimate_gas` | `gas_estimate_reply` |
//! | `eth_getTransactionByBlockHashAndIndex` | `eth_get_transaction_by_block_hash_and_index` | `transaction_reply` |
//! | `eth_getTransactionByBlockNumberAndIndex` | `eth_get_transaction_by_block_number_and_index` | `transaction_reply` |
//! | `stark_chainId` | `stark_chain_id` | `amount_reply` |
//! | `stark_blockNumber` | `stark_block_number` | `number_reply` |

use vstd::prelude::*;
use crate::decoder::{
    address_of_text,
    block_tag_of_text,
    bool_of_text,
    call_options_of_request,
    decode_address,
    decode_block_tag,
    decode_bool,
    decode_call_options,
    decode_hash,
    decode_raw_bytes,
    has_hex_prefix,
    hash_of_text,
    raw_bytes_of_text,
    CallRequest,
};
use crate::encoder::{balance_text, encode_hex, format_amount, format_balance, format_count};
use crate::error::{BackendError, DecodeError, RpcError};
use crate::hex::prefixed_hex_text;
use crate::number::decimal_text;
use crate::types::{
    view_ok,
    Address,
    Block,
    BlockTag,
    CallOptions,
    CallOptionsView,
    Transactions,
    Uint256,
    H256,
};

verus! {

/// A call to the Ethereum light client, with its arguments decoded.
#[derive(Clone, Debug, PartialEq, Eq)]
pub enum EthCall {
    ChainId,
    BlockNumber,
    GasPrice,
    PriorityFee,
    Syncing,
    Coinbase,
    GetBlockByHash { hash: H256, full_tx: bool },
    GetBlockByNumber { tag: BlockTag, full_tx: bool },
    GetBlockTransactionCountByHash { hash: H256 },
    GetBlockTransactionCountByNumber { tag: BlockTag },
    GetBalance { address: Address, tag: BlockTag },
    GetNonce { address: Address, tag: BlockTag },
    GetCode { address: Address, tag: BlockTag },
    EstimateGas { options: CallOptions },
    Call { options: CallOptions, tag: BlockTag },
    SendRawTransaction { bytes: Vec<u8> },
}

/// What an `EthCall` holds, as mathematical values.
pub enum EthCallView {
    ChainId,
    BlockNumber,
    GasPrice,
    PriorityFee,
    Syncing,
    Coinbase,
    GetBlockByHash { hash: Seq<u8>, full_tx: bool },
    GetBlockByNumber { tag: BlockTag, full_tx: bool },
    GetBlockTransactionCountByHash { hash: Seq<u8> },
    GetBlockTransactionCountByNumber { tag: BlockTag },
    GetBalance { address: Seq<u8>, tag: BlockTag },
    GetNonce { address: Seq<u8>, tag: BlockTag },
    GetCode { address: Seq<u8>, tag: BlockTag },
    EstimateGas { options: CallOptionsView },
    Call { options: CallOptionsView, tag: BlockTag },
    SendRawTransaction { bytes: Seq<u8> },
}

impl View for EthCall {
    type V = EthCallView;

    open spec fn view(&self) -> EthCallView {
        match *self {
            EthCall::ChainId => EthCallView::ChainId,
            EthCall::BlockNumber => EthCallView::BlockNumber,
            EthCall::GasPrice => EthCallView::GasPrice,
            EthCall::PriorityFee => EthCallView::PriorityFee,
            EthCall::Syncing => EthCallView::Syncing,
            EthCall::Coinbase => EthCallView::Coinbase,
            EthCall::GetBlockByHash { hash, full_tx } => EthCallView::GetBlockByHash {
                hash: hash@,
                full_tx,
            },
            EthCall::GetBlockByNumber { tag, full_tx } => EthCallView::GetBlockByNumber {
                tag,
                full_tx,
            },
            EthCall::GetBlockTransactionCountByHash {
                hash,
            } => EthCallView::GetBlockTransactionCountByHash { hash: hash@ },
            EthCall::GetBlockTransactionCountByNumber {
                tag,
            } => EthCallView::GetBlockTransactionCountByNumber { tag },
            EthCall::GetBalance { address, tag } => EthCallView::GetBalance {
                address: address@,
                tag,
            },
            EthCall::GetNonce { address, tag } => EthCallView::GetNonce { address: address@, tag },
            EthCall::GetCode { address, tag } => EthCallView::GetCode { address: address@, tag },
            EthCall::EstimateGas { options } => EthCallView::EstimateGas { options: options@ },
            EthCall::Call { options, tag } => EthCallView::Call { options: options@, tag },
            EthCall::SendRawTransaction { bytes } => EthCallView::SendRawTransaction {
                bytes: bytes@,
            },
        }
    }
}

/// A call to the Starknet light client.
#[derive(Clone, Copy, Debug, PartialEq, Eq, Structural)]
pub enum StarkCall {
    ChainId,
    BlockNumber,
}

/// How the shared handle is held while a call is made on it.
#[derive(Clone, Copy, Debug, PartialEq, Eq, Structural)]
pub enum Access {
    /// Under the read side of the handle's lock: calls of other requests go on
    /// beside this one.
    SharedRead,
    /// Under the write side of the handle's lock: no other call goes on.
    Exclusive,
    /// Under no lock: the handle orders its own work.
    Unlocked,
}

impl Access {
    /// Whether a call under this access and a call under `other` can go on at
    /// the same time on one handle. The write side shuts out every other call;
    /// nothing else shuts out anything.
    pub open spec fn spec_admits(self, other: Access) -> bool {
        self != Access::Exclusive && other != Access::Exclusive
    }

    /// Whether a call under this access and a call under `other` can go on at
    /// the same time on one handle.
    #[verifier::when_used_as_spec(spec_admits)]
    pub fn admits(self, other: Access) -> (r: bool)
        ensures
            r == self.spec_admits(other),
    {
        !matches!(self, Access::Exclusive) && !matches!(other, Access::Exclusive)
    }
}

impl EthCall {
    /// The access that the call is made under.
    pub open spec fn spec_access(&self) -> Access {
        Access::SharedRead
    }

    /// Every call on the Ethereum handle is made under the read side of its lock,
    /// which is let go before the answer is formatted; none takes the write side.
    #[verifier::when_used_as_spec(spec_access)]
    pub fn access(&self) -> (r: Access)
        ensures
            r == self.spec_access(),
            r == Access::SharedRead,
    {
        Access::SharedRead
    }
}

impl StarkCall {
    /// The access that the call is made under.
    pub open spec fn spec_access(&self) -> Access {
        Access::Unlocked
    }

    /// The Starknet handle is called under no lock of this library's: it has to
    /// be safe to call from many requests at once by its own means.
    #[verifier::when_used_as_spec(spec_access)]
    pub fn access(&self) -> (r: Access)
        ensures
            r == self.spec_access(),
            r == Access::Unlocked,
    {
        Access::Unlocked
    }
}

/// No two calls shut each other out: whatever two requests ask of the Ethereum
/// handle, both calls can go on at the same time, and so can any call beside one
/// on the Starknet handle.
pub proof fn lemma_calls_never_exclude_each_other(a: EthCall, b: EthCall, c: StarkCall)
    ensures
        a.spec_access().spec_admits(b.spec_access()),
        a.spec_access().spec_admits(c.spec_access()),
        c.spec_access().spec_admits(c.spec_access()),
{
}

/// The failure of a request whose parameter could not be decoded.
pub open spec fn decode_failure<T>(e: DecodeError) -> Result<T, RpcError> {
    Err(RpcError::Decode(e))
}

/// `eth_getBlockByHash`: the call for a block's hash and the choice between full
/// transactions and hashes. The hash is decoded first.
pub open spec fn block_by_hash_call(hash: Seq<char>, full_tx: Seq<char>) -> Result<
    EthCallView,
    RpcError,
> {
    match hash_of_text(hash) {
        Err(e) => decode_failure(e),
        Ok(h) => match bool_of_text(full_tx) {
            Err(e) => decode_failure(e),
            Ok(f) => Ok(EthCallView::GetBlockByHash { hash: h, full_tx: f }),
        },
    }
}

/// `eth_getBlockByNumber`: the call for a block tag and the choice between full
/// transactions and hashes. The choice is decoded first.
pub open spec fn block_by_number_call(tag: Seq<char>, full_tx: Seq<char>) -> Result<
    EthCallView,
    RpcError,
> {
    match bool_of_text(full_tx) {
        Err(e) => decode_failure(e),
        Ok(f) => match block_tag_of_text(tag) {
            Err(e) => decode_failure(e),
            Ok(t) => Ok(EthCallView::GetBlockByNumber { tag: t, full_tx: f }),
        },
    }
}

/// `eth_getBlockTransactionCountByHash`: the call for a block's hash.
pub open spec fn count_by_hash_call(hash: Seq<char>) -> Result<EthCallView, RpcError> {
    match hash_of_text(hash) {
        Err(e) => decode_failure(e),
        Ok(h) => Ok(EthCallView::GetBlockTransactionCountByHash { hash: h }),
    }
}

/// `eth_getBlockTransactionCountByNumber`: the call for a block tag.
pub open spec fn count_by_number_call(tag: Seq<char>) -> Result<EthCallView, RpcError> {
    match block_tag_of_text(tag) {
        Err(e) => decode_failure(e),
        Ok(t) => Ok(EthCallView::GetBlockTransactionCountByNumber { tag: t }),
    }
}

/// `eth_getBalance`: the call for an address, always at the latest block.
pub open spec fn balance_call(address: Seq<char>) -> Result<EthCallView, RpcError> {
    match address_of_text(address) {
        Err(e) => decode_failure(e),
        Ok(a) => Ok(EthCallView::GetBalance { address: a, tag: BlockTag::Latest }),
    }
}

/// `eth_getTransactionCount`: the call for an address, always at the latest
/// block.
pub open spec fn nonce_call(address: Seq<char>) -> Result<EthCallView, RpcError> {
    match address_of_text(address) {
        Err(e) => decode_failure(e),
        Ok(a) => Ok(EthCallView::GetNonce { address: a, tag: BlockTag::Latest }),
    }
}

/// `eth_getCode`: the call for an address, always at the latest block.
pub open spec fn code_call(address: Seq<char>) -> Result<EthCallView, RpcError> {
    match address_of_text(address) {
        Err(e) => decode_failure(e),
        Ok(a) => Ok(EthCallView::GetCode { address: a, tag: BlockTag::Latest }),
    }
}

/// `eth_sendRawTransaction`: the call for the bytes of a signed transaction.
pub open spec fn send_raw_transaction_call(raw: Seq<char>) -> Result<EthCallView, RpcError> {
    match raw_bytes_of_text(raw) {
        Err(e) => decode_failure(e),
        Ok(b) => Ok(EthCallView::SendRawTransaction { bytes: b }),
    }
}

/// `eth_call`: the call for call options and a block tag. The options are
/// decoded first.
pub open spec fn message_call(request: CallRequest, tag: Seq<char>) -> Result<
    EthCallView,
    RpcError,
> {
    match call_options_of_request(request) {
        Err(e) => decode_failure(e),
        Ok(options) => match block_tag_of_text(tag) {
            Err(e) => decode_failure(e),
            Ok(t) => Ok(EthCallView::Call { options, tag: t }),
        },
    }
}

/// `eth_estimateGas`: the call for call options.
pub open spec fn estimate_gas_call(request: CallRequest) -> Result<EthCallView, RpcError> {
    match call_options_of_request(request) {
        Err(e) => decode_failure(e),
        Ok(options) => Ok(EthCallView::EstimateGas { options }),
    }
}

/// `eth_getTransactionByBlockHashAndIndex`: the call for the block, always with
/// full transactions.
pub open spec fn transaction_by_hash_call(hash: Seq<char>) -> Result<EthCallView, RpcError> {
    match hash_of_text(hash) {
        Err(e) => decode_failure(e),
        Ok(h) => Ok(EthCallView::GetBlockByHash { hash: h, full_tx: true }),
    }
}

/// `eth_getTransactionByBlockNumberAndIndex`: the call for the block, always
/// with full transactions.
pub open spec fn transaction_by_number_call(tag: Seq<char>) -> Result<EthCallView, RpcError> {
    match block_tag_of_text(tag) {
        Err(e) => decode_failure(e),
        Ok(t) => Ok(EthCallView::GetBlockByNumber { tag: t, full_tx: true }),
    }
}

/// `eth_chainId` asks the backend for the chain id.
pub fn eth_chain_id() -> (call: EthCall)
    ensures
        call == EthCall::ChainId,
{
    EthCall::ChainId
}

/// `eth_blockNumber` asks the backend for the number of the latest block.
pub fn eth_block_number() -> (call: EthCall)
    ensures
        call == EthCall::BlockNumber,
{
    EthCall::BlockNumber
}

/// `eth_gasPrice` asks the backend for the gas price.
pub fn eth_gas_price() -> (call: EthCall)
    ensures
        call == EthCall::GasPrice,
{
    EthCall::GasPrice
}

/// `eth_maxPriorityFeePerGas` asks the backend for the priority fee.
pub fn eth_max_priority_fee_per_gas() -> (call: EthCall)
    ensures
        call == EthCall::PriorityFee,
{
    EthCall::PriorityFee
}

/// `eth_syncing` asks the backend for its sync status.
pub fn eth_syncing() -> (call: EthCall)
    ensures
        call == EthCall::Syncing,
{
    EthCall::Syncing
}

/// `eth_coinbase` asks the backend for the coinbase address.
pub fn eth_coinbase() -> (call: EthCall)
    ensures
        call == EthCall::Coinbase,
{
    EthCall::Coinbase
}

/// `stark_chainId` asks the Starknet backend for the chain id.
pub fn stark_chain_id() -> (call: StarkCall)
    ensures
        call == StarkCall::ChainId,
{
    StarkCall::ChainId
}

/// `stark_blockNumber` asks the Starknet backend for the latest block number.
pub fn stark_block_number() -> (call: StarkCall)
    ensures
        call == StarkCall::BlockNumber,
{
    StarkCall::BlockNumber
}

/// `eth_getBlockByHash(hash, full_tx)`.
pub fn eth_get_block_by_hash(hash: &str, full_tx: &str) -> (r: Result<EthCall, RpcError>)
    ensures
        view_ok(r) == block_by_hash_call(hash@, full_tx@),
{
    let hash = match decode_hash(hash) {
        Ok(h) => h,
        Err(e) => return Err(RpcError::Decode(e)),
    };
    let full_tx = match decode_bool(full_tx) {
        Ok(f) => f,
        Err(e) => return Err(RpcError::Decode(e)),
    };
    Ok(EthCall::GetBlockByHash { hash, full_tx })
}

/// `eth_getBlockByNumber(tag, full_tx)`.
pub fn eth_get_block_by_number(block_tag: &str, full_tx: &str) -> (r: Result<EthCall, RpcError>)
    ensures
        view_ok(r) == block_by_number_call(block_tag@, full_tx@),
{
    let full_tx = match decode_bool(full_tx) {
        Ok(f) => f,
        Err(e) => return Err(RpcError::Decode(e)),
    };
    let tag = match decode_block_tag(block_tag) {
        Ok(t) => t,
        Err(e) => return Err(RpcError::Decode(e)),
    };
    Ok(EthCall::GetBlockByNumber { tag, full_tx })
}

/// `eth_getBlockTransactionCountByHash(hash)`.
pub fn eth_get_block_transaction_count_by_hash(hash: &str) -> (r: Result<EthCall, RpcError>)
    ensures
        view_ok(r) == count_by_hash_call(hash@),
{
    match decode_hash(hash) {
        Ok(hash) => Ok(EthCall::GetBlockTransactionCountByHash { hash }),
        Err(e) => Err(RpcError::Decode(e)),
    }
}

/// `eth_getBlockTransactionCountByNumber(tag)`.
pub fn eth_get_block_transaction_count_by_number(block_tag: &str) -> (r: Result<
    EthCall,
    RpcError,
>)
    ensures
        view_ok(r) == count_by_number_call(block_tag@),
{
    match decode_block_tag(block_tag) {
        Ok(tag) => Ok(EthCall::GetBlockTransactionCountByNumber { tag }),
        Err(e) => Err(RpcError::Decode(e)),
    }
}

/// `eth_getBalance(address)`: the balance at the latest block.
pub fn eth_get_balance(address: &str) -> (r: Result<EthCall, RpcError>)
    ensures
        view_ok(r) == balance_call(address@),
{
    match decode_address(address) {
        Ok(address) => Ok(EthCall::GetBalance { address, tag: BlockTag::Latest }),
        Err(e) => Err(RpcError::Decode(e)),
    }
}

/// `eth_getTransactionCount(address)`: the nonce at the latest block.
pub fn eth_get_transaction_count(address: &str) -> (r: Result<EthCall, RpcError>)
    ensures
        view_ok(r) == nonce_call(address@),
{
    match decode_address(address) {
        Ok(address) => Ok(EthCall::GetNonce { address, tag: BlockTag::Latest }),
        Err(e) => Err(RpcError::Decode(e)),
    }
}

/// `eth_getCode(address)`: the code at the latest block.
pub fn eth_get_code(address: &str) -> (r: Result<EthCall, RpcError>)
    ensures
        view_ok(r) == code_call(address@),
{
    match decode_address(address) {
        Ok(address) => Ok(EthCall::GetCode { address, tag: BlockTag::Latest }),
        Err(e) => Err(RpcError::Decode(e)),
    }
}

/// `eth_sendRawTransaction(raw)`. Where the bytes do not decode there is no call
/// to make: the backend is not reached.
pub fn eth_send_raw_transaction(raw: &str) -> (r: Result<EthCall, RpcError>)
    ensures
        view_ok(r) == send_raw_transaction_call(raw@),
{
    match decode_raw_bytes(raw) {
        Ok(bytes) => Ok(EthCall::SendRawTransaction { bytes }),
        Err(e) => Err(RpcError::Decode(e)),
    }
}

/// `eth_call(options, tag)`.
pub fn eth_call(request: &CallRequest, block_tag: &str) -> (r: Result<EthCall, RpcError>)
    ensures
        view_ok(r) == message_call(*request, block_tag@),
{
    let options = match decode_call_options(request) {
        Ok(o) => o,
        Err(e) => return Err(RpcError::Decode(e)),
    };
    match decode_block_tag(block_tag) {
        Ok(tag) => Ok(EthCall::Call { options, tag }),
        Err(e) => Err(RpcError::Decode(e)),
    }
}

/// `eth_estimateGas(options)`.
pub fn eth_estimate_gas(request: &CallRequest) -> (r: Result<EthCall, RpcError>)
    ensures
        view_ok(r) == estimate_gas_call(*request),
{
    match decode_call_options(request) {
        Ok(options) => Ok(EthCall::EstimateGas { options }),
        Err(e) => Err(RpcError::Decode(e)),
    }
}

/// `eth_getTransactionByBlockHashAndIndex(hash, index)`: the block is asked for
/// with full transactions, whatever the caller would prefer.
pub fn eth_get_transaction_by_block_hash_and_index(hash: &str) -> (r: Result<EthCall, RpcError>)
    ensures
        view_ok(r) == transaction_by_hash_call(hash@),
{
    match decode_hash(hash) {
        Ok(hash) => Ok(EthCall::GetBlockByHash { hash, full_tx: true }),
        Err(e) => Err(RpcError::Decode(e)),
    }
}

/// `eth_getTransactionByBlockNumberAndIndex(tag, index)`: the block is asked for
/// with full transactions, whatever the caller would prefer.
pub fn eth_get_transaction_by_block_number_and_index(block_tag: &str) -> (r: Result<
    EthCall,
    RpcError,
>)
    ensures
        view_ok(r) == transaction_by_number_call(block_tag@),
{
    match decode_block_tag(block_tag) {
        Ok(tag) => Ok(EthCall::GetBlockByNumber { tag, full_tx: true }),
        Err(e) => Err(RpcError::Decode(e)),
    }
}

/// The response to an answer that passes as it is: the value, or the backend's
/// failure as the request's own.
pub open spec fn passed_on<T>(reply: Result<T, BackendError>) -> Result<T, RpcError> {
    match reply {
        Ok(v) => Ok(v),
        Err(e) => Err(RpcError::Backend(e)),
    }
}

/// The response to a block lookup: a block that does not exist is an absent
/// result, not an error.
pub open spec fn block_outcome<B>(reply: Result<Option<B>, BackendError>) -> Result<
    Option<B>,
    RpcError,
> {
    passed_on(reply)
}

/// The response to a count of a block's transactions, where the backend answers
/// `None` for a block that does not exist: that is an error.
pub open spec fn transaction_count_outcome(reply: Result<Option<u64>, BackendError>) -> Result<
    u64,
    RpcError,
> {
    match reply {
        Ok(Some(count)) => Ok(count),
        Ok(None) => Err(RpcError::BlockNotFound),
        Err(e) => Err(RpcError::Backend(e)),
    }
}

/// The transactions that an index selects from: the full bodies of the block's
/// transactions; none where the block does not exist or came with hashes only.
pub open spec fn effective_transactions<H, T>(block: Option<Block<H, T>>) -> Seq<T> {
    match block {
        Some(Block { header: _, transactions: Transactions::Full(list) }) => list@,
        _ => Seq::empty(),
    }
}

/// The response to a transaction lookup by position: the transaction at `index`
/// of the effective list, or an error where the list is not that long.
pub open spec fn transaction_outcome<H, T>(
    reply: Result<Option<Block<H, T>>, BackendError>,
    index: u64,
) -> Result<T, RpcError> {
    match reply {
        Ok(block) => {
            let list = effective_transactions(block);
            if index < list.len() {
                Ok(list[index as int])
            } else {
                Err(RpcError::IndexOutOfRange)
            }
        },
        Err(e) => Err(RpcError::Backend(e)),
    }
}

/// The response to an amount: its decimal text.
pub open spec fn amount_outcome(reply: Result<Uint256, BackendError>) -> Result<
    Seq<char>,
    RpcError,
> {
    match reply {
        Ok(amount) => Ok(decimal_text(amount@)),
        Err(e) => Err(RpcError::Backend(e)),
    }
}

/// The response to a gas estimate: its decimal text.
pub open spec fn gas_estimate_outcome(reply: Result<u64, BackendError>) -> Result<
    Seq<char>,
    RpcError,
> {
    match reply {
        Ok(gas) => Ok(decimal_text(gas as nat)),
        Err(e) => Err(RpcError::Backend(e)),
    }
}

/// The response to a balance in wei: its text in ether.
pub open spec fn balance_outcome(reply: Result<Uint256, BackendError>) -> Result<
    Seq<char>,
    RpcError,
> {
    match reply {
        Ok(wei) => Ok(balance_text(wei@)),
        Err(e) => Err(RpcError::Backend(e)),
    }
}

/// The response to the bytes that a message call returned: their hex text.
pub open spec fn call_outcome(reply: Result<Vec<u8>, BackendError>) -> Result<
    Seq<char>,
    RpcError,
> {
    match reply {
        Ok(bytes) => Ok(prefixed_hex_text(bytes@)),
        Err(e) => Err(RpcError::Backend(e)),
    }
}

/// The response to the hash of a transaction that was sent: its hex text.
pub open spec fn sent_transaction_outcome(reply: Result<H256, BackendError>) -> Result<
    Seq<char>,
    RpcError,
> {
    match reply {
        Ok(hash) => Ok(prefixed_hex_text(hash@)),
        Err(e) => Err(RpcError::Backend(e)),
    }
}

/// The response of `eth_syncing`, `eth_coinbase` and `eth_getCode`: the
/// backend's value as it is.
pub fn value_reply<T>(reply: Result<T, BackendError>) -> (r: Result<T, RpcError>)
    ensures
        r == passed_on(reply),
{
    match reply {
        Ok(v) => Ok(v),
        Err(e) => Err(RpcError::Backend(e)),
    }
}

/// The response of `eth_chainId`, `eth_blockNumber`, `eth_getTransactionCount`
/// and `stark_blockNumber`: the number as a number.
pub fn number_reply(reply: Result<u64, BackendError>) -> (r: Result<u64, RpcError>)
    ensures
        r == passed_on(reply),
{
    value_reply(reply)
}

/// The response of `eth_gasPrice`, `eth_maxPriorityFeePerGas` and
/// `stark_chainId`: the amount as a decimal string.
pub fn amount_reply(reply: Result<Uint256, BackendError>) -> (r: Result<String, RpcError>)
    ensures
        view_ok(r) == amount_outcome(reply),
{
    match reply {
        Ok(amount) => Ok(format_amount(&amount)),
        Err(e) => Err(RpcError::Backend(e)),
    }
}

/// The response of `eth_estimateGas`: the gas as a decimal string.
pub fn gas_estimate_reply(reply: Result<u64, BackendError>) -> (r: Result<String, RpcError>)
    ensures
        view_ok(r) == gas_estimate_outcome(reply),
{
    match reply {
        Ok(gas) => Ok(format_count(gas)),
        Err(e) => Err(RpcError::Backend(e)),
    }
}

/// The response of `eth_getBalance`: the balance in ether as a decimal string.
pub fn balance_reply(reply: Result<Uint256, BackendError>) -> (r: Result<String, RpcError>)
    ensures
        view_ok(r) == balance_outcome(reply),
{
    match reply {
        Ok(wei) => Ok(format_balance(&wei)),
        Err(e) => Err(RpcError::Backend(e)),
    }
}

/// The response of `eth_call`: the returned bytes as `0x` and lower-case hex.
pub fn call_reply(reply: Result<Vec<u8>, BackendError>) -> (r: Result<String, RpcError>)
    ensures
        view_ok(r) == call_outcome(reply),
{
    match reply {
        Ok(bytes) => Ok(encode_hex(bytes.as_slice())),
        Err(e) => Err(RpcError::Backend(e)),
    }
}

/// The response of `eth_sendRawTransaction`: the transaction's hash as `0x` and
/// lower-case hex.
pub fn sent_transaction_reply(reply: Result<H256, BackendError>) -> (r: Result<String, RpcError>)
    ensures
        view_ok(r) == sent_transaction_outcome(reply),
{
    match reply {
        Ok(hash) => Ok(encode_hex(hash.bytes.as_slice())),
        Err(e) => Err(RpcError::Backend(e)),
    }
}

/// The response of `eth_getBlockByHash` and `eth_getBlockByNumber`: the block,
/// or nothing where there is no such block.
pub fn block_reply<B>(reply: Result<Option<B>, BackendError>) -> (r: Result<Option<B>, RpcError>)
    ensures
        r == block_outcome(reply),
{
    value_reply(reply)
}

/// The response of `eth_getBlockTransactionCountByHash` and `...ByNumber`: the
/// count, or an error where there is no such block.
pub fn transaction_count_reply(reply: Result<Option<u64>, BackendError>) -> (r: Result<
    u64,
    RpcError,
>)
    ensures
        r == transaction_count_outcome(reply),
{
    match reply {
        Ok(Some(count)) => Ok(count),
        Ok(None) => Err(RpcError::BlockNotFound),
        Err(e) => Err(RpcError::Backend(e)),
    }
}

/// The response of `eth_getTransactionByBlockHashAndIndex` and
/// `...ByBlockNumberAndIndex`: the transaction at `index` of the block's full
/// transactions. A block that does not exist, or that came with hashes only, has
/// none; an index past the end is an error, never an access out of bounds.
pub fn transaction_reply<H, T>(reply: Result<Option<Block<H, T>>, BackendError>, index: u64) -> (r:
    Result<T, RpcError>)
    ensures
        r == transaction_outcome(reply, index),
{
    match reply {
        Ok(Some(block)) => match block.transactions {
            Transactions::Full(list) => {
                let mut list = list;
                if index < list.len() as u64 {
                    Ok(list.swap_remove(index as usize))
                } else {
                    Err(RpcError::IndexOutOfRange)
                }
            },
            Transactions::Hashes(_) => Err(RpcError::IndexOutOfRange),
        },
        Ok(None) => Err(RpcError::IndexOutOfRange),
        Err(e) => Err(RpcError::Backend(e)),
    }
}

/// Where the backend reports that there is no such block, a block lookup
/// answers with nothing, and a transaction count with an error.
pub proof fn lemma_absent_block<B>()
    ensures
        block_outcome::<B>(Ok(None)) == Ok::<Option<B>, RpcError>(None),
        transaction_count_outcome(Ok(None)) == Err::<u64, RpcError>(RpcError::BlockNotFound),
{
}

/// For every valid block tag the block is asked for with full transactions, and
/// an index that is not below the number of its transactions is out of range.
pub proof fn lemma_index_past_end<H, T>(tag: Seq<char>, block: Option<Block<H, T>>, index: u64)
    requires
        block_tag_of_text(tag) is Ok,
        index >= effective_transactions(block).len(),
    ensures
        transaction_by_number_call(tag) == Ok::<EthCallView, RpcError>(
            EthCallView::GetBlockByNumber { tag: block_tag_of_text(tag)->Ok_0, full_tx: true },
        ),
        transaction_outcome(Ok(block), index) == Err::<T, RpcError>(RpcError::IndexOutOfRange),
{
}

/// An index below the number of full transactions selects the transaction at
/// that position.
pub proof fn lemma_index_in_range<H, T>(block: Block<H, T>, index: u64)
    requires
        block.transactions is Full,
        index < block.transactions->Full_0@.len(),
    ensures
        transaction_outcome(Ok(Some(block)), index) == Ok::<T, RpcError>(
            block.transactions->Full_0@[index as int],
        ),
{
}

/// A block that does not exist and a block that came with hashes only have no
/// transaction at any index.
pub proof fn lemma_nothing_to_select<H, T>(header: H, hashes: Vec<H256>, index: u64)
    ensures
        transaction_outcome::<H, T>(Ok(None), index) == Err::<T, RpcError>(
            RpcError::IndexOutOfRange,
        ),
        transaction_outcome::<H, T>(
            Ok(Some(Block { header, transactions: Transactions::Hashes(hashes) })),
            index,
        ) == Err::<T, RpcError>(RpcError::IndexOutOfRange),
{
}

/// No answer swallows a failure of the backend: whatever the method, the failure
/// comes back as the request's own, with the backend's message.
pub proof fn lemma_backend_failure_is_reported<B, H, T>(failure: BackendError, index: u64)
    ensures
        passed_on::<B>(Err(failure)) == Err::<B, RpcError>(RpcError::Backend(failure)),
        block_outcome::<B>(Err(failure)) == Err::<Option<B>, RpcError>(RpcError::Backend(failure)),
        transaction_count_outcome(Err(failure)) == Err::<u64, RpcError>(
            RpcError::Backend(failure),
        ),
        transaction_outcome::<H, T>(Err(failure), index) == Err::<T, RpcError>(
            RpcError::Backend(failure),
        ),
        amount_outcome(Err(failure)) == Err::<Seq<char>, RpcError>(RpcError::Backend(failure)),
        gas_estimate_outcome(Err(failure)) == Err::<Seq<char>, RpcError>(
            RpcError::Backend(failure),
        ),
        balance_outcome(Err(failure)) == Err::<Seq<char>, RpcError>(RpcError::Backend(failure)),
        call_outcome(Err(failure)) == Err::<Seq<char>, RpcError>(RpcError::Backend(failure)),
        sent_transaction_outcome(Err(failure)) == Err::<Seq<char>, RpcError>(
            RpcError::Backend(failure),
        ),
        RpcError::Backend(failure).spec_message() == failure.message@,
{
}

/// A raw transaction with an odd number of hex digits fails to decode, and so
/// does every other that is no byte string: then there is no call, and the
/// backend is not reached.
pub proof fn lemma_bad_raw_transaction_makes_no_call(raw: Seq<char>)
    ensures
        has_hex_prefix(raw) && raw.len() % 2 == 1 ==> send_raw_transaction_call(raw) == Err::<
            EthCallView,
            RpcError,
        >(RpcError::Decode(DecodeError::OddLength)),
        send_raw_transaction_call(raw) is Ok <==> raw_bytes_of_text(raw) is Ok,
{
}

} // verus!
