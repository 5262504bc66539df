use beerus_rpc::decoder::CallRequest;
use beerus_rpc::dispatch::{
    amount_reply, balance_reply, block_reply, call_reply, eth_block_number, eth_call,
    eth_chain_id, eth_coinbase, eth_estimate_gas, eth_gas_price, eth_get_balance,
    eth_get_block_by_hash, eth_get_block_by_number, eth_get_block_transaction_count_by_hash,
    eth_get_block_transaction_count_by_number, eth_get_code, eth_get_transaction_by_block_hash_and_index,
    eth_get_transaction_by_block_number_and_index, eth_get_transaction_count,
    eth_max_priority_fee_per_gas, eth_send_raw_transaction, eth_syncing, gas_estimate_reply,
    number_reply, sent_transaction_reply, stark_block_number, stark_chain_id,
    transaction_count_reply, transaction_reply, value_reply, Access, EthCall, StarkCall,
};
use beerus_rpc::error::{
    BackendError, DecodeError, RpcError, BLOCK_NOT_FOUND, INDEX_OUT_OF_RANGE, INTERNAL_ERROR,
    INVALID_PARAMS,
};
use beerus_rpc::types::{
    Address, Block, BlockTag, CallOptions, Transactions, Uint256, H256,
};

const HASH_TEXT: &str = "0x000102030405060708090a0b0c0d0e0f101112131415161718191a1b1c1d1e1f";
const ADDRESS_TEXT: &str = "0x000102030405060708090a0b0c0d0e0f10111213";

fn sample_hash() -> H256 {
    let mut bytes = [0u8; 32];
    for (i, b) in bytes.iter_mut().enumerate() {
        *b = i as u8;
    }
    H256 { bytes }
}

fn sample_address() -> Address {
    let mut bytes = [0u8; 20];
    for (i, b) in bytes.iter_mut().enumerate() {
        *b = i as u8;
    }
    Address { bytes }
}

fn sample_request() -> CallRequest {
    CallRequest {
        from: None,
        to: Some(String::from(ADDRESS_TEXT)),
        gas: Some(String::from("0x5208")),
        gas_price: None,
        value: Some(String::from("0x1")),
        data: Some(String::from("0xa9059cbb")),
    }
}

fn sample_options() -> CallOptions {
    CallOptions {
        from: None,
        to: sample_address(),
        gas: Some(Uint256::from_u64(21_000)),
        gas_price: None,
        value: Some(Uint256::from_u64(1)),
        data: Some(vec![0xa9, 0x05, 0x9c, 0xbb]),
    }
}

fn down() -> BackendError {
    BackendError { message: String::from("light client is not synced") }
}

#[test]
fn methods_without_parameters_name_their_call() {
    assert_eq!(eth_chain_id(), EthCall::ChainId);
    assert_eq!(eth_block_number(), EthCall::BlockNumber);
    assert_eq!(eth_gas_price(), EthCall::GasPrice);
    assert_eq!(eth_max_priority_fee_per_gas(), EthCall::PriorityFee);
    assert_eq!(eth_syncing(), EthCall::Syncing);
    assert_eq!(eth_coinbase(), EthCall::Coinbase);
    assert_eq!(stark_chain_id(), StarkCall::ChainId);
    assert_eq!(stark_block_number(), StarkCall::BlockNumber);
}

#[test]
fn block_by_hash_decodes_hash_and_choice() {
    assert_eq!(
        eth_get_block_by_hash(HASH_TEXT, "true"),
        Ok(EthCall::GetBlockByHash { hash: sample_hash(), full_tx: true })
    );
    assert_eq!(
        eth_get_block_by_hash(HASH_TEXT, "false"),
        Ok(EthCall::GetBlockByHash { hash: sample_hash(), full_tx: false })
    );
}

#[test]
fn block_by_hash_reports_the_hash_before_the_choice() {
    assert_eq!(
        eth_get_block_by_hash("0x00", "maybe"),
        Err(RpcError::Decode(DecodeError::InvalidLength))
    );
    assert_eq!(
        eth_get_block_by_hash(HASH_TEXT, "maybe"),
        Err(RpcError::Decode(DecodeError::InvalidBoolean))
    );
    assert_eq!(
        eth_get_block_by_hash(&HASH_TEXT[2..], "true"),
        Err(RpcError::Decode(DecodeError::MissingPrefix))
    );
}

#[test]
fn block_by_number_decodes_tag_and_choice() {
    assert_eq!(
        eth_get_block_by_number("latest", "false"),
        Ok(EthCall::GetBlockByNumber { tag: BlockTag::Latest, full_tx: false })
    );
    assert_eq!(
        eth_get_block_by_number("0x10", "true"),
        Ok(EthCall::GetBlockByNumber { tag: BlockTag::ExactNumber(16), full_tx: true })
    );
    assert_eq!(
        eth_get_block_by_number("finalized", "true"),
        Ok(EthCall::GetBlockByNumber { tag: BlockTag::Finalized, full_tx: true })
    );
}

#[test]
fn block_by_number_reports_the_choice_before_the_tag() {
    assert_eq!(
        eth_get_block_by_number("newest", "maybe"),
        Err(RpcError::Decode(DecodeError::InvalidBoolean))
    );
    assert_eq!(
        eth_get_block_by_number("newest", "true"),
        Err(RpcError::Decode(DecodeError::InvalidBlockTag))
    );
    assert_eq!(
        eth_get_block_by_number("18446744073709551616", "true"),
        Err(RpcError::Decode(DecodeError::NumberTooLarge))
    );
}

#[test]
fn transaction_counts_decode_their_block() {
    assert_eq!(
        eth_get_block_transaction_count_by_hash(HASH_TEXT),
        Ok(EthCall::GetBlockTransactionCountByHash { hash: sample_hash() })
    );
    assert_eq!(
        eth_get_block_transaction_count_by_number("pending"),
        Ok(EthCall::GetBlockTransactionCountByNumber { tag: BlockTag::Pending })
    );
    assert_eq!(
        eth_get_block_transaction_count_by_number("42"),
        Ok(EthCall::GetBlockTransactionCountByNumber { tag: BlockTag::ExactNumber(42) })
    );
    assert_eq!(
        eth_get_block_transaction_count_by_hash("0xzz"),
        Err(RpcError::Decode(DecodeError::InvalidLength))
    );
    assert_eq!(
        eth_get_block_transaction_count_by_number(""),
        Err(RpcError::Decode(DecodeError::InvalidBlockTag))
    );
}

#[test]
fn account_lookups_are_made_at_the_latest_block() {
    assert_eq!(
        eth_get_balance(ADDRESS_TEXT),
        Ok(EthCall::GetBalance { address: sample_address(), tag: BlockTag::Latest })
    );
    assert_eq!(
        eth_get_transaction_count(ADDRESS_TEXT),
        Ok(EthCall::GetNonce { address: sample_address(), tag: BlockTag::Latest })
    );
    assert_eq!(
        eth_get_code(ADDRESS_TEXT),
        Ok(EthCall::GetCode { address: sample_address(), tag: BlockTag::Latest })
    );
}

#[test]
fn account_lookups_reject_a_malformed_address() {
    assert_eq!(
        eth_get_balance("0x0001"),
        Err(RpcError::Decode(DecodeError::InvalidLength))
    );
    assert_eq!(
        eth_get_transaction_count(&ADDRESS_TEXT[2..]),
        Err(RpcError::Decode(DecodeError::MissingPrefix))
    );
    assert_eq!(
        eth_get_code("0x000102030405060708090a0b0c0d0e0f1011121_"),
        Err(RpcError::Decode(DecodeError::InvalidDigit))
    );
}

#[test]
fn raw_transaction_is_decoded_before_any_call() {
    assert_eq!(
        eth_send_raw_transaction("0xf86c0a"),
        Ok(EthCall::SendRawTransaction { bytes: vec![0xf8, 0x6c, 0x0a] })
    );
    let mut calls = 0;
    for raw in ["0xf86c0", "0x1", "0xabc", "0xf86c0a1"] {
        match eth_send_raw_transaction(raw) {
            Ok(_) => calls += 1,
            Err(e) => assert_eq!(e, RpcError::Decode(DecodeError::OddLength)),
        }
    }
    assert_eq!(calls, 0);
    assert_eq!(
        eth_send_raw_transaction("f86c0a"),
        Err(RpcError::Decode(DecodeError::MissingPrefix))
    );
    assert_eq!(
        eth_send_raw_transaction("0xf86c0g"),
        Err(RpcError::Decode(DecodeError::InvalidDigit))
    );
}

#[test]
fn call_options_are_decoded_and_passed_on() {
    assert_eq!(
        eth_call(&sample_request(), "latest"),
        Ok(EthCall::Call { options: sample_options(), tag: BlockTag::Latest })
    );
    assert_eq!(
        eth_call(&sample_request(), "0x2a"),
        Ok(EthCall::Call { options: sample_options(), tag: BlockTag::ExactNumber(42) })
    );
    assert_eq!(
        eth_estimate_gas(&sample_request()),
        Ok(EthCall::EstimateGas { options: sample_options() })
    );
}

#[test]
fn call_reports_the_options_before_the_tag() {
    assert_eq!(
        eth_call(&sample_request(), "soon"),
        Err(RpcError::Decode(DecodeError::InvalidBlockTag))
    );
    let mut request = sample_request();
    request.to = None;
    assert_eq!(
        eth_call(&request, "soon"),
        Err(RpcError::Decode(DecodeError::MissingRecipient))
    );
    assert_eq!(
        eth_estimate_gas(&request),
        Err(RpcError::Decode(DecodeError::MissingRecipient))
    );
}

#[test]
fn transaction_lookups_always_ask_for_full_transactions() {
    assert_eq!(
        eth_get_transaction_by_block_hash_and_index(HASH_TEXT),
        Ok(EthCall::GetBlockByHash { hash: sample_hash(), full_tx: true })
    );
    for tag in ["latest", "finalized", "safe", "earliest", "pending", "0", "0x1f", "77"] {
        match eth_get_transaction_by_block_number_and_index(tag) {
            Ok(EthCall::GetBlockByNumber { full_tx, .. }) => assert!(full_tx),
            other => panic!("unexpected call {:?}", other),
        }
    }
    assert_eq!(
        eth_get_transaction_by_block_number_and_index("0x1f"),
        Ok(EthCall::GetBlockByNumber { tag: BlockTag::ExactNumber(31), full_tx: true })
    );
    assert_eq!(
        eth_get_transaction_by_block_hash_and_index("0x"),
        Err(RpcError::Decode(DecodeError::InvalidLength))
    );
    assert_eq!(
        eth_get_transaction_by_block_number_and_index("x"),
        Err(RpcError::Decode(DecodeError::InvalidBlockTag))
    );
}

#[test]
fn ethereum_calls_share_the_read_lock_and_starknet_calls_take_none() {
    let calls = [
        eth_chain_id(),
        eth_block_number(),
        eth_gas_price(),
        eth_get_balance(ADDRESS_TEXT).unwrap(),
        eth_send_raw_transaction("0x00").unwrap(),
        eth_estimate_gas(&sample_request()).unwrap(),
    ];
    for call in calls.iter() {
        assert_eq!(call.access(), Access::SharedRead);
        assert_ne!(call.access(), Access::Exclusive);
    }
    assert_eq!(stark_chain_id().access(), Access::Unlocked);
    assert_eq!(stark_block_number().access(), Access::Unlocked);
    for a in calls.iter() {
        for b in calls.iter() {
            assert!(a.access().admits(b.access()));
        }
        assert!(a.access().admits(stark_chain_id().access()));
    }
}

#[test]
fn only_the_write_side_shuts_other_calls_out() {
    let all = [Access::SharedRead, Access::Exclusive, Access::Unlocked];
    for a in all {
        for b in all {
            let expected = a != Access::Exclusive && b != Access::Exclusive;
            assert_eq!(a.admits(b), expected);
        }
    }
}

#[test]
fn absent_block_is_an_absent_result_for_lookups() {
    let absent: Result<Option<TestBlock>, BackendError> = Ok(None);
    assert_eq!(block_reply(absent), Ok(None));
    let found = Block { header: 7, transactions: Transactions::Full(vec!["a"]) };
    assert_eq!(block_reply(Ok(Some(found.clone()))), Ok(Some(found)));
    match block_reply(hash_only_block()) {
        Ok(Some(block)) => assert_eq!(
            block.transactions,
            Transactions::Hashes(vec![sample_hash(), sample_hash()])
        ),
        other => panic!("unexpected response {:?}", other),
    }
    assert_eq!(block_reply::<TestBlock>(Err(down())), Err(RpcError::Backend(down())));
}

#[test]
fn absent_block_is_an_error_for_counts() {
    assert_eq!(transaction_count_reply(Ok(None)), Err(RpcError::BlockNotFound));
    assert_eq!(transaction_count_reply(Ok(Some(0))), Ok(0));
    assert_eq!(transaction_count_reply(Ok(Some(12))), Ok(12));
    assert_eq!(transaction_count_reply(Err(down())), Err(RpcError::Backend(down())));
}

type TestBlock = Block<u64, &'static str>;

fn full_block(transactions: Vec<&'static str>) -> Result<Option<TestBlock>, BackendError> {
    Ok(Some(Block { header: 7, transactions: Transactions::Full(transactions) }))
}

fn hash_only_block() -> Result<Option<TestBlock>, BackendError> {
    Ok(Some(Block {
        header: 7,
        transactions: Transactions::Hashes(vec![sample_hash(), sample_hash()]),
    }))
}

#[test]
fn transaction_is_selected_by_position() {
    assert_eq!(transaction_reply(full_block(vec!["a", "b", "c"]), 0), Ok("a"));
    assert_eq!(transaction_reply(full_block(vec!["a", "b", "c"]), 1), Ok("b"));
    assert_eq!(transaction_reply(full_block(vec!["a", "b", "c"]), 2), Ok("c"));
    assert_eq!(transaction_reply(full_block(vec!["a"]), 0), Ok("a"));
}

#[test]
fn index_not_below_the_count_is_out_of_range() {
    assert_eq!(
        transaction_reply(full_block(vec!["a", "b", "c"]), 3),
        Err(RpcError::IndexOutOfRange)
    );
    assert_eq!(
        transaction_reply(full_block(vec!["a", "b", "c"]), 4),
        Err(RpcError::IndexOutOfRange)
    );
    assert_eq!(
        transaction_reply(full_block(vec!["a", "b", "c"]), u64::MAX),
        Err(RpcError::IndexOutOfRange)
    );
    assert_eq!(transaction_reply(full_block(vec![]), 0), Err(RpcError::IndexOutOfRange));
}

#[test]
fn index_past_the_end_is_out_of_range_for_every_tag() {
    for tag in ["latest", "finalized", "safe", "earliest", "pending", "0", "12", "0xc"] {
        assert!(eth_get_transaction_by_block_number_and_index(tag).is_ok());
        for count in 0..4u64 {
            let transactions: Vec<&'static str> = ["a", "b", "c"][..count as usize].to_vec();
            for index in count..count + 3 {
                assert_eq!(
                    transaction_reply(full_block(transactions.clone()), index),
                    Err(RpcError::IndexOutOfRange)
                );
            }
        }
    }
}

#[test]
fn absent_or_hash_only_block_has_no_transaction_to_select() {
    let absent: Result<Option<TestBlock>, BackendError> = Ok(None);
    assert_eq!(transaction_reply(absent, 0), Err(RpcError::IndexOutOfRange));
    assert_eq!(transaction_reply(hash_only_block(), 0), Err(RpcError::IndexOutOfRange));
    assert_eq!(transaction_reply(hash_only_block(), 1), Err(RpcError::IndexOutOfRange));
    let failed: Result<Option<TestBlock>, BackendError> = Err(down());
    assert_eq!(transaction_reply(failed, 0), Err(RpcError::Backend(down())));
}

#[test]
fn numbers_pass_as_numbers() {
    assert_eq!(number_reply(Ok(1)), Ok(1));
    assert_eq!(number_reply(Ok(17_034_871)), Ok(17_034_871));
    assert_eq!(number_reply(Err(down())), Err(RpcError::Backend(down())));
}

#[test]
fn values_pass_as_they_are() {
    assert_eq!(value_reply(Ok(vec![0x60u8, 0x80, 0x60, 0x40])), Ok(vec![0x60u8, 0x80, 0x60, 0x40]));
    assert_eq!(value_reply(Ok(sample_address())), Ok(sample_address()));
    assert_eq!(value_reply::<Vec<u8>>(Err(down())), Err(RpcError::Backend(down())));
}

#[test]
fn amounts_are_answered_in_decimal() {
    assert_eq!(
        amount_reply(Ok(Uint256::from_u64(20_000_000_000))),
        Ok(String::from("20000000000"))
    );
    assert_eq!(amount_reply(Ok(Uint256::from_u64(0))), Ok(String::from("0")));
    assert_eq!(amount_reply(Err(down())), Err(RpcError::Backend(down())));
    assert_eq!(gas_estimate_reply(Ok(21_000)), Ok(String::from("21000")));
    assert_eq!(gas_estimate_reply(Err(down())), Err(RpcError::Backend(down())));
}

#[test]
fn balance_is_answered_in_ether() {
    assert_eq!(
        balance_reply(Ok(Uint256::from_u64(1_000_000_000_000_000_000))),
        Ok(String::from("1"))
    );
    assert_eq!(
        balance_reply(Ok(Uint256::from_u64(1_500_000_000_000_000_000))),
        Ok(String::from("1.5"))
    );
    assert_eq!(balance_reply(Err(down())), Err(RpcError::Backend(down())));
}

#[test]
fn call_result_and_transaction_hash_are_answered_in_hex() {
    assert_eq!(call_reply(Ok(vec![])), Ok(String::from("0x")));
    assert_eq!(call_reply(Ok(vec![0, 0xAB, 0xff])), Ok(String::from("0x00abff")));
    assert_eq!(call_reply(Err(down())), Err(RpcError::Backend(down())));
    assert_eq!(sent_transaction_reply(Ok(sample_hash())), Ok(String::from(HASH_TEXT)));
    assert_eq!(sent_transaction_reply(Err(down())), Err(RpcError::Backend(down())));
}

#[test]
fn interleaved_requests_do_not_touch_each_other() {
    let n = 64u64;
    let mut calls = Vec::new();
    for i in 0..n {
        if i % 2 == 0 {
            calls.push(eth_block_number());
        } else {
            calls.push(eth_get_balance(ADDRESS_TEXT).unwrap());
        }
    }
    let mut responses = Vec::new();
    for call in calls.iter().rev() {
        assert_eq!(call.access(), Access::SharedRead);
        match call {
            EthCall::BlockNumber => {
                responses.push(number_reply(Ok(17_000_000)).map(|b| b.to_string()))
            }
            EthCall::GetBalance { address, tag } => {
                assert_eq!(*address, sample_address());
                assert_eq!(*tag, BlockTag::Latest);
                responses.push(balance_reply(Ok(Uint256::from_u64(2_500_000_000_000_000_000))))
            }
            other => panic!("unexpected call {:?}", other),
        }
    }
    assert_eq!(responses.len() as u64, n);
    for (i, response) in responses.iter().rev().enumerate() {
        if i % 2 == 0 {
            assert_eq!(*response, Ok(String::from("17000000")));
        } else {
            assert_eq!(*response, Ok(String::from("2.5")));
        }
    }
}

#[test]
fn every_error_has_its_code_and_message() {
    let decode = RpcError::Decode(DecodeError::OddLength);
    assert_eq!(decode.code(), INVALID_PARAMS);
    assert_eq!(decode.code(), -32602);
    assert_eq!(decode.message(), "hex value has an odd number of digits");
    let backend = RpcError::Backend(down());
    assert_eq!(backend.code(), INTERNAL_ERROR);
    assert_eq!(backend.code(), -32603);
    assert_eq!(backend.message(), "light client is not synced");
    assert_eq!(RpcError::BlockNotFound.code(), BLOCK_NOT_FOUND);
    assert_eq!(RpcError::BlockNotFound.code(), -32001);
    assert_eq!(RpcError::BlockNotFound.message(), "block not found");
    assert_eq!(RpcError::IndexOutOfRange.code(), INDEX_OUT_OF_RANGE);
    assert_eq!(RpcError::IndexOutOfRange.code(), -32002);
    assert_eq!(RpcError::IndexOutOfRange.message(), "index out of range");
}
