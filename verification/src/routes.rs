//! The resources of the gateway and the paths under which they are served.
//! Every resource answers `GET` only.

use vstd::prelude::*;
use vstd::string::*;

verus! {

/// Path prefix of every resource but the liveness probe.
pub const API_SCOPE: &'static str = "/api/v0.1";

/// Path of the liveness probe, which answers with an empty success.
pub const LIVENESS_PATH: &'static str = "/favicon.ico";

/// The resources that the gateway serves.
#[derive(Clone, Copy, Debug, PartialEq, Eq, Structural)]
pub enum Resource {
    TestnetConfig,
    Status,
    AccountState,
    Tokens,
    AccountHistory,
    ExecutedTransaction,
    TransactionByHash,
    PriorityOperation,
    BlockTransaction,
    BlockTransactions,
    Block,
    Blocks,
    Search,
}

impl Resource {
    /// The path pattern of the resource below `API_SCOPE`. A name in braces
    /// stands for one path segment.
    pub open spec fn pattern(self) -> Seq<char> {
        match self {
            Resource::TestnetConfig => "/testnet_config"@,
            Resource::Status => "/status"@,
            Resource::AccountState => "/account/{address}"@,
            Resource::Tokens => "/tokens"@,
            Resource::AccountHistory => "/account/{address}/history/{offset}/{limit}"@,
            Resource::ExecutedTransaction => "/transactions/{tx_hash}"@,
            Resource::TransactionByHash => "/transactions_all/{tx_hash}"@,
            Resource::PriorityOperation => "/priority_operations/{id}/"@,
            Resource::BlockTransaction => "/blocks/{block_id}/transactions/{tx_id}"@,
            Resource::BlockTransactions => "/blocks/{block_id}/transactions"@,
            Resource::Block => "/blocks/{block_id}"@,
            Resource::Blocks => "/blocks"@,
            Resource::Search => "/search"@,
        }
    }

    /// The path pattern of the resource below `API_SCOPE`.
    pub fn path_pattern(&self) -> (pattern: &'static str)
        ensures
            pattern@ == self.pattern(),
    {
        match self {
            Resource::TestnetConfig => "/testnet_config",
            Resource::Status => "/status",
            Resource::AccountState => "/account/{address}",
            Resource::Tokens => "/tokens",
            Resource::AccountHistory => "/account/{address}/history/{offset}/{limit}",
            Resource::ExecutedTransaction => "/transactions/{tx_hash}",
            Resource::TransactionByHash => "/transactions_all/{tx_hash}",
            Resource::PriorityOperation => "/priority_operations/{id}/",
            Resource::BlockTransaction => "/blocks/{block_id}/transactions/{tx_id}",
            Resource::BlockTransactions => "/blocks/{block_id}/transactions",
            Resource::Block => "/blocks/{block_id}",
            Resource::Blocks => "/blocks",
            Resource::Search => "/search",
        }
    }
}

/// No two resources share a path pattern.
pub proof fn law_patterns_are_distinct(a: Resource, b: Resource)
    requires
        a != b,
    ensures
        a.pattern() != b.pattern(),
{
    reveal_strlit("/testnet_config");
    reveal_strlit("/status");
    reveal_strlit("/account/{address}");
    reveal_strlit("/tokens");
    reveal_strlit("/account/{address}/history/{offset}/{limit}");
    reveal_strlit("/transactions/{tx_hash}");
    reveal_strlit("/transactions_all/{tx_hash}");
    reveal_strlit("/priority_operations/{id}/");
    reveal_strlit("/blocks/{block_id}/transactions/{tx_id}");
    reveal_strlit("/blocks/{block_id}/transactions");
    reveal_strlit("/blocks/{block_id}");
    reveal_strlit("/blocks");
    reveal_strlit("/search");
    if a.pattern().len() == b.pattern().len() {
        assert(a.pattern()[1] != b.pattern()[1] || a.pattern()[2] != b.pattern()[2]);
    }
}

} // verus!
