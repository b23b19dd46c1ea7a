use query_gateway::accounts::{
    account_state_view, Account, AccountStateResponse, Balance, StoredAccountState,
};
use query_gateway::errors::{response_status, ApiError};
use query_gateway::handlers::{
    access_storage, account_history_request, account_state_request, account_state_response,
    block_by_id_request, block_by_id_response, blocks_request, executed_transaction_request,
    executed_transaction_response, found_or_missing, network_status_response, storage_outcome,
    testnet_config_response, tokens_response, transaction_by_id_response, tx_by_hash_request,
    DEFAULT_BLOCKS_LIMIT, DEFAULT_MAX_BLOCK, MAX_BLOCKS_LIMIT, MAX_HISTORY_LIMIT,
};
use query_gateway::normalizer::Address;
use query_gateway::status::{NetworkStatus, StatusCache};
use query_gateway::tokens::{sort_tokens, Token};

fn address(fill: u8) -> Address {
    Address { bytes: [fill; 20] }
}

fn token(id: u16, symbol: &str) -> Token {
    Token { id, address: address(id as u8), symbol: symbol.to_string() }
}

fn funded(fill: u8, nonce: u32, amount: u128) -> Account {
    Account { address: address(fill), nonce, balances: vec![Balance { token: 0, amount }] }
}

#[test]
fn limits_are_fixed() {
    assert_eq!(MAX_HISTORY_LIMIT, 100);
    assert_eq!(MAX_BLOCKS_LIMIT, 100);
    assert_eq!(DEFAULT_BLOCKS_LIMIT, 20);
    assert_eq!(DEFAULT_MAX_BLOCK, 999_999_999);
}

#[test]
fn exhausted_pool_is_a_timeout() {
    assert_eq!(access_storage::<u8, &str>(Err("no connection")), Err(ApiError::Timeout));
    assert_eq!(access_storage::<u8, &str>(Ok(7)), Ok(7));
}

#[test]
fn storage_failure_is_an_internal_error() {
    assert_eq!(storage_outcome::<u8, &str>(Err("db")), Err(ApiError::InternalError));
    assert_eq!(storage_outcome::<Vec<u8>, &str>(Ok(vec![1, 2])), Ok(vec![1, 2]));
}

#[test]
fn missing_value_is_not_found() {
    assert_eq!(found_or_missing::<u8>(None), Err(ApiError::NotFound));
    assert_eq!(found_or_missing(Some("block")), Ok("block"));
}

#[test]
fn testnet_config_holds_the_contract_address() {
    let configured = "0x0000000000000000000000000000000000000001".to_string();
    let config = testnet_config_response(&configured);
    assert_eq!(config.contract_address, configured);
}

#[test]
fn network_status_comes_from_the_cache() {
    let mut cache = StatusCache::new();
    assert_eq!(network_status_response(&cache), NetworkStatus::default());
    let status = NetworkStatus {
        next_block_at_max: None,
        last_committed: 3,
        last_verified: 2,
        total_transactions: 10,
        outstanding_txs: 1,
    };
    cache.publish(status);
    assert_eq!(network_status_response(&cache), status);
}

#[test]
fn account_request_accepts_an_address() {
    let query = format!("0x{}", "11".repeat(20));
    assert_eq!(account_state_request(&query), Ok(address(0x11)));
}

#[test]
fn account_request_rejects_a_short_address() {
    let query = format!("0x{}", "11".repeat(19));
    assert_eq!(account_state_request(&query), Err(ApiError::BadRequest));
    assert_eq!(account_state_request("not an address"), Err(ApiError::BadRequest));
}

#[test]
fn account_without_record_is_shown_empty() {
    let queried = address(0x42);
    let stored = StoredAccountState { committed: None, verified: None };
    let view = account_state_view(queried, stored);
    assert_eq!(view.id, None);
    assert_eq!(view.committed, Account { address: queried, nonce: 0, balances: vec![] });
    assert_eq!(view.verified, Account { address: queried, nonce: 0, balances: vec![] });
    assert_eq!(Account::empty(queried), view.committed);
}

#[test]
fn committed_account_is_shown_with_its_id() {
    let queried = address(0x42);
    let committed = funded(0x42, 5, 1000);
    let verified = funded(0x42, 4, 900);
    let stored = StoredAccountState {
        committed: Some((17, committed.clone())),
        verified: Some((17, verified.clone())),
    };
    let view = account_state_view(queried, stored);
    assert_eq!(view, AccountStateResponse { id: Some(17), committed, verified });
}

#[test]
fn account_not_verified_yet_has_an_empty_verified_record() {
    let queried = address(0x42);
    let committed = funded(0x42, 1, 10);
    let stored = StoredAccountState { committed: Some((3, committed.clone())), verified: None };
    let view = account_state_view(queried, stored);
    assert_eq!(view.id, Some(3));
    assert_eq!(view.committed, committed);
    assert_eq!(view.verified, Account { address: queried, nonce: 0, balances: vec![] });
}

#[test]
fn id_comes_from_the_committed_record_only() {
    let queried = address(0x09);
    let verified = funded(0x09, 2, 20);
    let stored = StoredAccountState { committed: None, verified: Some((8, verified.clone())) };
    let view = account_state_view(queried, stored);
    assert_eq!(view.id, None);
    assert_eq!(view.committed, Account { address: queried, nonce: 0, balances: vec![] });
    assert_eq!(view.verified, verified);
}

#[test]
fn account_response_maps_storage_failure() {
    let outcome = account_state_response::<&str>(address(1), Err("db"));
    assert_eq!(outcome, Err(ApiError::InternalError));
    let stored = StoredAccountState { committed: None, verified: None };
    let outcome = account_state_response::<&str>(address(1), Ok(stored));
    let view = outcome.unwrap();
    assert_eq!(view.id, None);
    assert_eq!(view.committed.address, address(1));
    assert!(view.committed.balances.is_empty());
    assert_eq!(view.verified.address, address(1));
    assert!(view.verified.balances.is_empty());
}

#[test]
fn tokens_are_sorted_by_id() {
    let tokens = vec![token(3, "DAI"), token(0, "ETH"), token(2, "USDC"), token(1, "WBTC")];
    let sorted = sort_tokens(tokens);
    assert_eq!(sorted, vec![token(0, "ETH"), token(1, "WBTC"), token(2, "USDC"), token(3, "DAI")]);
}

#[test]
fn sorting_keeps_every_token() {
    let tokens = vec![token(5, "E"), token(5, "F"), token(1, "A"), token(9, "Z"), token(5, "G")];
    let sorted = sort_tokens(tokens.clone());
    assert_eq!(sorted.len(), tokens.len());
    for window in sorted.windows(2) {
        assert!(window[0].id <= window[1].id);
    }
    for t in &tokens {
        assert!(sorted.contains(t));
    }
    assert_eq!(sort_tokens(Vec::new()), Vec::new());
    assert_eq!(sort_tokens(vec![token(4, "X")]), vec![token(4, "X")]);
}

#[test]
fn tokens_of_one_id_keep_their_order() {
    let tokens = vec![
        token(5, "first"),
        token(2, "a"),
        token(5, "second"),
        token(2, "b"),
        token(5, "third"),
        token(0, "z"),
    ];
    let sorted = sort_tokens(tokens);
    assert_eq!(
        sorted,
        vec![
            token(0, "z"),
            token(2, "a"),
            token(2, "b"),
            token(5, "first"),
            token(5, "second"),
            token(5, "third"),
        ]
    );
}

#[test]
fn tokens_response_sorts_or_fails() {
    let loaded: Result<Vec<Token>, &str> = Ok(vec![token(2, "B"), token(1, "A")]);
    assert_eq!(tokens_response(loaded), Ok(vec![token(1, "A"), token(2, "B")]));
    assert_eq!(tokens_response::<&str>(Err("db")), Err(ApiError::InternalError));
}

#[test]
fn history_limit_over_the_ceiling_is_rejected() {
    assert_eq!(account_history_request(address(1), 0, 101), Err(ApiError::BadRequest));
    assert_eq!(account_history_request(address(1), 0, i64::MAX), Err(ApiError::BadRequest));
    assert_eq!(account_history_request(address(1), -5, 1000), Err(ApiError::BadRequest));
}

#[test]
fn history_limit_up_to_the_ceiling_is_accepted() {
    let page = account_history_request(address(7), 40, 100).unwrap();
    assert_eq!(page.address(), address(7));
    assert_eq!(page.offset(), 40);
    assert_eq!(page.limit(), 100);
    let page = account_history_request(address(7), 0, 0).unwrap();
    assert_eq!(page.limit(), 0);
    let page = account_history_request(address(7), -3, -1).unwrap();
    assert_eq!(page.offset(), -3);
    assert_eq!(page.limit(), -1);
}

#[test]
fn executed_transaction_request_uses_the_raw_path() {
    assert_eq!(executed_transaction_request("0xabcd"), Ok(vec![0xabu8, 0xcd]));
    assert_eq!(executed_transaction_request("zzabcd"), Ok(vec![0xabu8, 0xcd]));
    assert_eq!(executed_transaction_request("0x"), Ok(vec![]));
    assert_eq!(executed_transaction_request("0"), Err(ApiError::BadRequest));
    assert_eq!(executed_transaction_request(""), Err(ApiError::BadRequest));
    assert_eq!(executed_transaction_request("0xabc"), Err(ApiError::BadRequest));
    assert_eq!(executed_transaction_request("sync-tx:abcd"), Err(ApiError::BadRequest));
}

#[test]
fn executed_transaction_without_receipt_is_no_error() {
    assert_eq!(executed_transaction_response::<Option<u8>, &str>(Ok(None)), Ok(None));
    assert_eq!(executed_transaction_response::<Option<u8>, &str>(Ok(Some(5))), Ok(Some(5)));
}

#[test]
fn executed_transaction_lookup_failure_is_an_internal_error() {
    assert_eq!(
        executed_transaction_response::<Option<u8>, &str>(Err("db")),
        Err(ApiError::InternalError)
    );
    assert_eq!(
        response_status(&executed_transaction_response::<Option<u8>, &str>(Err("db"))),
        500
    );
    assert_eq!(response_status(&executed_transaction_response::<Option<u8>, &str>(Ok(None))), 200);
}

#[test]
fn tx_by_hash_request_needs_thirty_two_bytes() {
    let digits = "ab".repeat(32);
    assert_eq!(tx_by_hash_request(&format!("0x{}", digits)), Ok(vec![0xabu8; 32]));
    assert_eq!(tx_by_hash_request(&format!("sync-tx:{}", digits)), Ok(vec![0xabu8; 32]));
    assert_eq!(tx_by_hash_request(&digits), Ok(vec![0xabu8; 32]));
    assert_eq!(tx_by_hash_request(&format!("0x{}", "ab".repeat(31))), Err(ApiError::BadRequest));
    assert_eq!(tx_by_hash_request(&format!("zz{}", digits)), Err(ApiError::BadRequest));
    assert_eq!(tx_by_hash_request(""), Err(ApiError::BadRequest));
}

#[test]
fn transaction_by_id_picks_the_operation() {
    let ops = vec!["deposit", "transfer", "withdraw"];
    assert_eq!(transaction_by_id_response::<&str, &str>(Ok(ops.clone()), 0), Ok("deposit"));
    assert_eq!(transaction_by_id_response::<&str, &str>(Ok(ops.clone()), 2), Ok("withdraw"));
    assert_eq!(transaction_by_id_response::<&str, &str>(Ok(ops.clone()), 3), Err(ApiError::NotFound));
    assert_eq!(
        transaction_by_id_response::<&str, &str>(Ok(ops), u32::MAX),
        Err(ApiError::NotFound)
    );
    assert_eq!(transaction_by_id_response::<&str, &str>(Ok(vec![]), 0), Err(ApiError::NotFound));
    assert_eq!(transaction_by_id_response::<&str, &str>(Err("db"), 0), Err(ApiError::InternalError));
}

#[test]
fn blocks_limit_over_the_ceiling_is_rejected() {
    assert_eq!(blocks_request(None, Some(101)), Err(ApiError::BadRequest));
    assert_eq!(blocks_request(Some(5), Some(u32::MAX)), Err(ApiError::BadRequest));
}

#[test]
fn blocks_limit_at_the_ceiling_is_accepted() {
    let range = blocks_request(None, Some(100)).unwrap();
    assert_eq!(range.max_block(), 999_999_999);
    assert_eq!(range.limit(), 100);
}

#[test]
fn blocks_request_defaults() {
    let range = blocks_request(None, None).unwrap();
    assert_eq!(range.max_block(), 999_999_999);
    assert_eq!(range.limit(), 20);
    let range = blocks_request(Some(1234), None).unwrap();
    assert_eq!(range.max_block(), 1234);
    assert_eq!(range.limit(), 20);
    let range = blocks_request(Some(0), Some(0)).unwrap();
    assert_eq!(range.max_block(), 0);
    assert_eq!(range.limit(), 0);
}

#[test]
fn block_by_id_is_a_range_of_one() {
    let range = block_by_id_request(77);
    assert_eq!(range.max_block(), 77);
    assert_eq!(range.limit(), 1);
}

#[test]
fn block_by_id_takes_the_last_block_loaded() {
    assert_eq!(block_by_id_response::<u32, &str>(Ok(vec![77])), Ok(77));
    assert_eq!(block_by_id_response::<u32, &str>(Ok(vec![75, 76])), Ok(76));
    assert_eq!(block_by_id_response::<u32, &str>(Ok(vec![])), Err(ApiError::NotFound));
    assert_eq!(block_by_id_response::<u32, &str>(Err("db")), Err(ApiError::InternalError));
}
