//! The decisions of each request handler: what is checked before storage is
//! asked, what is asked of it, and what its answer becomes.
//!
//! A handler is split in two. Its `_request` function validates the input
//! and returns either the query to run or the error to send; no storage
//! access is due after an error. Its `_response` function, where it has one,
//! turns what storage returned into the payload or the error to send.

use vstd::prelude::*;
use crate::accounts::{account_state_view, id_of, presents, AccountStateResponse, StoredAccountState};
use crate::errors::ApiError;
use crate::normalizer::{
    parse_address, parse_hash, parse_raw_hash, try_parse_address, try_parse_hash,
    try_parse_raw_hash, Address,
};
use crate::status::{NetworkStatus, StatusCache};
use crate::tokens::{sort_tokens, sorted_by_id, with_id, Token};

verus! {

/// Largest page of an account's transaction history.
pub const MAX_HISTORY_LIMIT: i64 = 100;

/// Largest range of blocks in one answer.
pub const MAX_BLOCKS_LIMIT: u32 = 100;

/// Range of blocks in one answer where the request names none.
pub const DEFAULT_BLOCKS_LIMIT: u32 = 20;

/// Newest block of a range where the request names none: a number above
/// every block there is.
pub const DEFAULT_MAX_BLOCK: u32 = 999_999_999;

/// The outcome of taking a storage connection for a request: a failure to
/// get one is a timeout, whatever its cause.
pub fn access_storage<C, E>(acquired: Result<C, E>) -> (connection: Result<C, ApiError>)
    ensures
        match acquired {
            Ok(c) => connection == Ok::<C, ApiError>(c),
            Err(_) => connection == Err::<C, ApiError>(ApiError::Timeout),
        },
{
    match acquired {
        Ok(c) => Ok(c),
        Err(_) => Err(ApiError::Timeout),
    }
}

/// What a storage query becomes where every failure is an internal error:
/// the loaded value, or `InternalError`. This is the whole response of the
/// account history, the transaction by hash, the priority operation
/// receipt, the block range and the transactions of a block.
pub fn storage_outcome<T, E>(loaded: Result<T, E>) -> (outcome: Result<T, ApiError>)
    ensures
        match loaded {
            Ok(value) => outcome == Ok::<T, ApiError>(value),
            Err(_) => outcome == Err::<T, ApiError>(ApiError::InternalError),
        },
{
    match loaded {
        Ok(value) => Ok(value),
        Err(_) => Err(ApiError::InternalError),
    }
}

/// What a lookup becomes: the value found, or `NotFound`. This is the
/// response of the explorer search.
pub fn found_or_missing<T>(found: Option<T>) -> (outcome: Result<T, ApiError>)
    ensures
        match found {
            Some(value) => outcome == Ok::<T, ApiError>(value),
            None => outcome == Err::<T, ApiError>(ApiError::NotFound),
        },
{
    match found {
        Some(value) => Ok(value),
        None => Err(ApiError::NotFound),
    }
}

/// The payload of the testnet configuration.
#[derive(Clone, Debug, PartialEq, Eq)]
pub struct TestnetConfigResponse {
    pub contract_address: String,
}

/// The testnet configuration: the contract address as configured.
pub fn testnet_config_response(contract_address: &String) -> (config: TestnetConfigResponse)
    ensures
        config.contract_address@ == contract_address@,
{
    TestnetConfigResponse { contract_address: contract_address.clone() }
}

/// The network status: the summary that the cache holds, without any storage
/// access.
pub fn network_status_response(cache: &StatusCache) -> (status: NetworkStatus)
    ensures
        status == cache@.snapshot,
{
    cache.read()
}

/// The account whose state is asked for, or `BadRequest` where
/// `account_address` names none.
pub fn account_state_request(account_address: &str) -> (request: Result<Address, ApiError>)
    ensures
        match request {
            Ok(address) => parse_address(account_address@) == Some(address@),
            Err(error) => parse_address(account_address@) is None && error == ApiError::BadRequest,
        },
{
    match try_parse_address(account_address) {
        Some(address) => Ok(address),
        None => Err(ApiError::BadRequest),
    }
}

/// The state of the account at `address` for what storage returned.
pub fn account_state_response<E>(address: Address, loaded: Result<StoredAccountState, E>) -> (outcome:
    Result<AccountStateResponse, ApiError>)
    ensures
        match loaded {
            Ok(stored) => outcome matches Ok(view) && view.id == id_of(stored.committed)
                && presents(view.committed, stored.committed, address) && presents(
                view.verified,
                stored.verified,
                address,
            ),
            Err(_) => outcome == Err::<AccountStateResponse, ApiError>(ApiError::InternalError),
        },
{
    match loaded {
        Ok(stored) => Ok(account_state_view(address, stored)),
        Err(_) => Err(ApiError::InternalError),
    }
}

/// The token list for what storage returned: all tokens, in ascending order
/// of id.
pub fn tokens_response<E>(loaded: Result<Vec<Token>, E>) -> (outcome: Result<Vec<Token>, ApiError>)
    ensures
        match loaded {
            Ok(tokens) => outcome matches Ok(sorted) && sorted_by_id(sorted@)
                && sorted@.to_multiset() == tokens@.to_multiset() && forall|id: u16| #[trigger]
                with_id(sorted@, id) == with_id(tokens@, id),
            Err(_) => outcome == Err::<Vec<Token>, ApiError>(ApiError::InternalError),
        },
{
    match loaded {
        Ok(tokens) => Ok(sort_tokens(tokens)),
        Err(_) => Err(ApiError::InternalError),
    }
}

/// A page of an account's transaction history: `limit` records from
/// `offset` on. The limit is never over `MAX_HISTORY_LIMIT`.
#[derive(Clone, Copy, Debug, PartialEq, Eq)]
pub struct HistoryPage {
    address: Address,
    offset: i64,
    limit: i64,
}

impl HistoryPage {
    #[verifier::type_invariant]
    spec fn within_ceiling(self) -> bool {
        self.limit <= MAX_HISTORY_LIMIT
    }

    pub closed spec fn spec_address(self) -> Address {
        self.address
    }

    pub closed spec fn spec_offset(self) -> i64 {
        self.offset
    }

    pub closed spec fn spec_limit(self) -> i64 {
        self.limit
    }

    /// The account whose history is asked for.
    pub fn address(&self) -> (address: Address)
        ensures
            address == self.spec_address(),
    {
        self.address
    }

    /// The number of records to skip.
    pub fn offset(&self) -> (offset: i64)
        ensures
            offset == self.spec_offset(),
    {
        self.offset
    }

    /// The number of records asked for.
    pub fn limit(&self) -> (limit: i64)
        ensures
            limit == self.spec_limit(),
            limit <= MAX_HISTORY_LIMIT,
    {
        proof {
            use_type_invariant(self);
        }
        self.limit
    }
}

/// The page of history to load, or `BadRequest` where `limit` is over
/// `MAX_HISTORY_LIMIT`.
pub fn account_history_request(address: Address, offset: i64, limit: i64) -> (request: Result<
    HistoryPage,
    ApiError,
>)
    ensures
        match request {
            Ok(page) => limit <= MAX_HISTORY_LIMIT && page.spec_address() == address
                && page.spec_offset() == offset && page.spec_limit() == limit,
            Err(error) => limit > MAX_HISTORY_LIMIT && error == ApiError::BadRequest,
        },
{
    if limit > MAX_HISTORY_LIMIT {
        return Err(ApiError::BadRequest);
    }
    Ok(HistoryPage { address, offset, limit })
}

/// The hash of the executed transaction that is asked for, or `BadRequest`.
/// This is the raw path: the first two characters of `tx_hash_hex` are
/// dropped unseen, and any number of bytes is accepted.
pub fn executed_transaction_request(tx_hash_hex: &str) -> (request: Result<Vec<u8>, ApiError>)
    ensures
        match request {
            Ok(hash) => parse_raw_hash(tx_hash_hex@) == Some(hash@),
            Err(error) => parse_raw_hash(tx_hash_hex@) is None && error == ApiError::BadRequest,
        },
{
    match try_parse_raw_hash(tx_hash_hex) {
        Some(hash) => Ok(hash),
        None => Err(ApiError::BadRequest),
    }
}

/// The receipt of an executed transaction for what storage returned. A
/// failed lookup is an internal error like any other storage failure. A
/// transaction without a receipt is no failure: the loaded value says so
/// itself and is handed on as it is.
pub fn executed_transaction_response<T, E>(loaded: Result<T, E>) -> (outcome: Result<T, ApiError>)
    ensures
        match loaded {
            Ok(value) => outcome == Ok::<T, ApiError>(value),
            Err(_) => outcome == Err::<T, ApiError>(ApiError::InternalError),
        },
{
    storage_outcome(loaded)
}

/// The hash of the transaction that is asked for, or `BadRequest` where
/// `hash_hex_with_prefix` names no 32-byte hash.
pub fn tx_by_hash_request(hash_hex_with_prefix: &str) -> (request: Result<Vec<u8>, ApiError>)
    ensures
        match request {
            Ok(hash) => parse_hash(hash_hex_with_prefix@) == Some(hash@),
            Err(error) => parse_hash(hash_hex_with_prefix@) is None && error
                == ApiError::BadRequest,
        },
{
    match try_parse_hash(hash_hex_with_prefix) {
        Some(hash) => Ok(hash),
        None => Err(ApiError::BadRequest),
    }
}

/// The operation at position `tx_id` of a block for what storage returned of
/// the block's executed operations. A position past the end is `NotFound`.
pub fn transaction_by_id_response<T, E>(loaded: Result<Vec<T>, E>, tx_id: u32) -> (outcome: Result<
    T,
    ApiError,
>)
    ensures
        match loaded {
            Ok(executed_ops) => if tx_id < executed_ops@.len() {
                outcome == Ok::<T, ApiError>(executed_ops@[tx_id as int])
            } else {
                outcome == Err::<T, ApiError>(ApiError::NotFound)
            },
            Err(_) => outcome == Err::<T, ApiError>(ApiError::InternalError),
        },
{
    match loaded {
        Ok(executed_ops) => {
            let mut executed_ops = executed_ops;
            let at: usize = tx_id as usize;
            if at < executed_ops.len() {
                Ok(executed_ops.remove(at))
            } else {
                Err(ApiError::NotFound)
            }
        },
        Err(_) => Err(ApiError::InternalError),
    }
}

/// A range of blocks: up to `limit` blocks downwards from `max_block`. The
/// limit is never over `MAX_BLOCKS_LIMIT`.
#[derive(Clone, Copy, Debug, PartialEq, Eq)]
pub struct BlockRange {
    max_block: u32,
    limit: u32,
}

impl BlockRange {
    #[verifier::type_invariant]
    spec fn within_ceiling(self) -> bool {
        self.limit <= MAX_BLOCKS_LIMIT
    }

    pub closed spec fn spec_max_block(self) -> u32 {
        self.max_block
    }

    pub closed spec fn spec_limit(self) -> u32 {
        self.limit
    }

    /// The newest block of the range.
    pub fn max_block(&self) -> (max_block: u32)
        ensures
            max_block == self.spec_max_block(),
    {
        self.max_block
    }

    /// The number of blocks asked for.
    pub fn limit(&self) -> (limit: u32)
        ensures
            limit == self.spec_limit(),
            limit <= MAX_BLOCKS_LIMIT,
    {
        proof {
            use_type_invariant(self);
        }
        self.limit
    }
}

/// The newest block of a range as asked for, `DEFAULT_MAX_BLOCK` where the
/// request names none.
pub open spec fn max_block_or_default(max_block: Option<u32>) -> u32 {
    match max_block {
        Some(number) => number,
        None => DEFAULT_MAX_BLOCK,
    }
}

/// The width of a range as asked for, `DEFAULT_BLOCKS_LIMIT` where the
/// request names none.
pub open spec fn limit_or_default(limit: Option<u32>) -> u32 {
    match limit {
        Some(number) => number,
        None => DEFAULT_BLOCKS_LIMIT,
    }
}

/// The range of blocks to load, or `BadRequest` where the limit asked for is
/// over `MAX_BLOCKS_LIMIT`.
pub fn blocks_request(max_block: Option<u32>, limit: Option<u32>) -> (request: Result<
    BlockRange,
    ApiError,
>)
    ensures
        match request {
            Ok(range) => limit_or_default(limit) <= MAX_BLOCKS_LIMIT && range.spec_max_block()
                == max_block_or_default(max_block) && range.spec_limit() == limit_or_default(limit),
            Err(error) => limit_or_default(limit) > MAX_BLOCKS_LIMIT && error
                == ApiError::BadRequest,
        },
{
    let max_block: u32 = match max_block {
        Some(number) => number,
        None => DEFAULT_MAX_BLOCK,
    };
    let limit: u32 = match limit {
        Some(number) => number,
        None => DEFAULT_BLOCKS_LIMIT,
    };
    if limit > MAX_BLOCKS_LIMIT {
        return Err(ApiError::BadRequest);
    }
    Ok(BlockRange { max_block, limit })
}

/// The range to load for a single block: the range of width one that ends
/// at `block_id`.
pub fn block_by_id_request(block_id: u32) -> (range: BlockRange)
    ensures
        range.spec_max_block() == block_id,
        range.spec_limit() == 1,
{
    BlockRange { max_block: block_id, limit: 1 }
}

/// The block for what storage returned of its range: the last block of the
/// range, `NotFound` where the range is empty.
pub fn block_by_id_response<T, E>(loaded: Result<Vec<T>, E>) -> (outcome: Result<T, ApiError>)
    ensures
        match loaded {
            Ok(blocks) => if blocks@.len() > 0 {
                outcome == Ok::<T, ApiError>(blocks@.last())
            } else {
                outcome == Err::<T, ApiError>(ApiError::NotFound)
            },
            Err(_) => outcome == Err::<T, ApiError>(ApiError::InternalError),
        },
{
    match loaded {
        Ok(blocks) => {
            let mut blocks = blocks;
            match blocks.pop() {
                Some(block) => Ok(block),
                None => Err(ApiError::NotFound),
            }
        },
        Err(_) => Err(ApiError::InternalError),
    }
}

} // verus!
