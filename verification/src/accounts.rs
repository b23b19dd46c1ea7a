//! Account records and the view of an account's state that is handed out.

use vstd::prelude::*;
use crate::normalizer::Address;

verus! {

/// The amount of one token that an account holds.
#[derive(Clone, Copy, Debug, PartialEq, Eq, Structural)]
pub struct Balance {
    pub token: u16,
    pub amount: u128,
}

/// An account record.
#[derive(Clone, Debug, PartialEq, Eq)]
pub struct Account {
    pub address: Address,
    pub nonce: u32,
    pub balances: Vec<Balance>,
}

impl Account {
    /// Whether this is the empty record of `address`: no balances, nonce
    /// zero, and the address set.
    pub open spec fn is_empty_for(&self, address: Address) -> bool {
        &&& self.address == address
        &&& self.nonce == 0
        &&& self.balances@.len() == 0
    }

    /// The empty record of `address`.
    pub fn empty(address: Address) -> (account: Account)
        ensures
            account.is_empty_for(address),
    {
        Account { address, nonce: 0, balances: Vec::new() }
    }
}

/// What storage holds of an account: its record as of the last committed
/// block and as of the last verified block, each with the account's id, or
/// nothing where the account did not exist by then.
pub struct StoredAccountState {
    pub committed: Option<(u32, Account)>,
    pub verified: Option<(u32, Account)>,
}

/// The state of an account as it is handed out. `id` is absent for an
/// account that is not committed yet; the two records are always present.
#[derive(Clone, Debug, PartialEq, Eq)]
pub struct AccountStateResponse {
    pub id: Option<u32>,
    pub committed: Account,
    pub verified: Account,
}

/// Whether `record` is what is handed out for `stored`: the stored record
/// itself, or the empty record of `address` where nothing is stored.
pub open spec fn presents(record: Account, stored: Option<(u32, Account)>, address: Address) -> bool {
    match stored {
        Some((_, account)) => record == account,
        None => record.is_empty_for(address),
    }
}

/// The id that goes with a stored record.
pub open spec fn id_of(stored: Option<(u32, Account)>) -> Option<u32> {
    match stored {
        Some((id, _)) => Some(id),
        None => None,
    }
}

fn record_or_empty(stored: Option<(u32, Account)>, address: Address) -> (record: Account)
    ensures
        presents(record, stored, address),
{
    match stored {
        Some((_, account)) => account,
        None => Account::empty(address),
    }
}

/// The view of the account at `address` for what storage holds of it. The id
/// is that of the committed record.
pub fn account_state_view(address: Address, stored: StoredAccountState) -> (view:
    AccountStateResponse)
    ensures
        view.id == id_of(stored.committed),
        presents(view.committed, stored.committed, address),
        presents(view.verified, stored.verified, address),
{
    let id = match &stored.committed {
        Some((id, _)) => Some(*id),
        None => None,
    };
    let committed = record_or_empty(stored.committed, address);
    let verified = record_or_empty(stored.verified, address);
    AccountStateResponse { id, committed, verified }
}

} // verus!
