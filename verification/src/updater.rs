//! The refresh task of the network status summary: what it does at each
//! step is decided here and carried out by the caller, who reports back what
//! came of it. The task has no end: every cycle, however it went, is
//! followed by the wait for the next tick.

use vstd::prelude::*;
use crate::status::NetworkStatus;

verus! {

/// Milliseconds between two refresh cycles.
pub const REFRESH_INTERVAL_MS: u64 = 1000;

/// The value taken for a reading: zero where the read failed or found
/// nothing.
pub open spec fn or_zero(reading: Option<u32>) -> u32 {
    match reading {
        Some(value) => value,
        None => 0,
    }
}

/// The summary built from the four readings of a cycle.
pub open spec fn snapshot_of(
    last_verified: Option<u32>,
    last_committed: Option<u32>,
    total_transactions: Option<u32>,
    outstanding_txs: Option<u32>,
) -> NetworkStatus {
    NetworkStatus {
        next_block_at_max: None,
        last_committed: or_zero(last_committed),
        last_verified: or_zero(last_verified),
        total_transactions: or_zero(total_transactions),
        outstanding_txs: or_zero(outstanding_txs),
    }
}

/// Builds the summary from the four readings of a cycle. A reading that is
/// `None` (the read failed, or nothing was stored) counts as zero and leaves
/// the other fields as they were read.
pub fn refresh_snapshot(
    last_verified: Option<u32>,
    last_committed: Option<u32>,
    total_transactions: Option<u32>,
    outstanding_txs: Option<u32>,
) -> (status: NetworkStatus)
    ensures
        status == snapshot_of(last_verified, last_committed, total_transactions, outstanding_txs),
{
    NetworkStatus {
        next_block_at_max: None,
        last_committed: value_or_zero(last_committed),
        last_verified: value_or_zero(last_verified),
        total_transactions: value_or_zero(total_transactions),
        outstanding_txs: value_or_zero(outstanding_txs),
    }
}

fn value_or_zero(reading: Option<u32>) -> (value: u32)
    ensures
        value == or_zero(reading),
{
    match reading {
        Some(value) => value,
        None => 0,
    }
}

/// What the caller is to do next.
#[derive(Clone, Copy, Debug, PartialEq, Eq, Structural)]
pub enum RefreshAction {
    /// Publish nothing and wait for the next tick of the timer.
    WaitForTick,
    /// Take a storage connection, waiting for one if none is free.
    Connect,
    /// Read the number of the last verified block.
    ReadLastVerified,
    /// Read the number of the last committed block.
    ReadLastCommitted,
    /// Count all transactions.
    CountTotalTransactions,
    /// Count the proofs outstanding after block `after_block`.
    CountOutstandingProofs { after_block: u32 },
    /// Publish `status`.
    Publish { status: NetworkStatus },
}

/// What the caller reports back after an action.
#[derive(Clone, Copy, Debug, PartialEq, Eq, Structural)]
pub enum RefreshEvent {
    /// The timer ticked.
    Tick,
    /// A storage connection was taken.
    Connected,
    /// No storage connection could be taken.
    ConnectionFailed,
    /// A read came back: `None` where it failed or found nothing.
    Reading(Option<u32>),
    /// The summary was published.
    Published,
}

/// Where the refresh task stands, with the readings taken so far in the
/// cycle.
#[derive(Clone, Copy, Debug, PartialEq, Eq, Structural)]
pub enum RefreshState {
    AwaitTick,
    AwaitConnection,
    AwaitLastVerified,
    AwaitLastCommitted { last_verified: u32 },
    AwaitTotalTransactions { last_verified: u32, last_committed: u32 },
    AwaitOutstandingProofs { last_verified: u32, last_committed: u32, total_transactions: u32 },
    Ready { status: NetworkStatus },
}

impl RefreshState {
    /// The action that this state asks for.
    pub open spec fn action(self) -> RefreshAction {
        match self {
            RefreshState::AwaitTick => RefreshAction::WaitForTick,
            RefreshState::AwaitConnection => RefreshAction::Connect,
            RefreshState::AwaitLastVerified => RefreshAction::ReadLastVerified,
            RefreshState::AwaitLastCommitted { .. } => RefreshAction::ReadLastCommitted,
            RefreshState::AwaitTotalTransactions { .. } => RefreshAction::CountTotalTransactions,
            RefreshState::AwaitOutstandingProofs { last_verified, .. } => {
                RefreshAction::CountOutstandingProofs { after_block: last_verified }
            },
            RefreshState::Ready { status } => RefreshAction::Publish { status },
        }
    }

    /// The state after `event`.
    ///
    /// A tick begins a cycle. With a connection the cycle takes its four
    /// readings, whatever they are, and is then ready to publish; once the
    /// summary is published the task waits for the next tick. Without a
    /// connection the cycle is over at once: nothing is published, and the
    /// task waits for the next tick. An event that the state did not ask for
    /// leaves the state as it is.
    pub open spec fn advanced(self, event: RefreshEvent) -> RefreshState {
        match (self, event) {
            (RefreshState::AwaitTick, RefreshEvent::Tick) => RefreshState::AwaitConnection,
            (RefreshState::AwaitConnection, RefreshEvent::Connected) => {
                RefreshState::AwaitLastVerified
            },
            (RefreshState::AwaitConnection, RefreshEvent::ConnectionFailed) => {
                RefreshState::AwaitTick
            },
            (RefreshState::AwaitLastVerified, RefreshEvent::Reading(reading)) => {
                RefreshState::AwaitLastCommitted { last_verified: or_zero(reading) }
            },
            (RefreshState::AwaitLastCommitted { last_verified }, RefreshEvent::Reading(reading)) => {
                RefreshState::AwaitTotalTransactions {
                    last_verified,
                    last_committed: or_zero(reading),
                }
            },
            (
                RefreshState::AwaitTotalTransactions { last_verified, last_committed },
                RefreshEvent::Reading(reading),
            ) => RefreshState::AwaitOutstandingProofs {
                last_verified,
                last_committed,
                total_transactions: or_zero(reading),
            },
            (
                RefreshState::AwaitOutstandingProofs {
                    last_verified,
                    last_committed,
                    total_transactions,
                },
                RefreshEvent::Reading(reading),
            ) => RefreshState::Ready {
                status: NetworkStatus {
                    next_block_at_max: None,
                    last_committed,
                    last_verified,
                    total_transactions,
                    outstanding_txs: or_zero(reading),
                },
            },
            (RefreshState::Ready { .. }, RefreshEvent::Published) => RefreshState::AwaitTick,
            _ => self,
        }
    }

    /// The state in which the task begins: waiting for the first tick.
    pub fn start() -> (state: RefreshState)
        ensures
            state == RefreshState::AwaitTick,
    {
        RefreshState::AwaitTick
    }

    /// The action to carry out in this state.
    pub fn next_action(&self) -> (action: RefreshAction)
        ensures
            action == self.action(),
    {
        match self {
            RefreshState::AwaitTick => RefreshAction::WaitForTick,
            RefreshState::AwaitConnection => RefreshAction::Connect,
            RefreshState::AwaitLastVerified => RefreshAction::ReadLastVerified,
            RefreshState::AwaitLastCommitted { .. } => RefreshAction::ReadLastCommitted,
            RefreshState::AwaitTotalTransactions { .. } => RefreshAction::CountTotalTransactions,
            RefreshState::AwaitOutstandingProofs { last_verified, .. } => {
                RefreshAction::CountOutstandingProofs { after_block: *last_verified }
            },
            RefreshState::Ready { status } => RefreshAction::Publish { status: *status },
        }
    }

    /// Takes in what came of the action that `next_action` asked for.
    pub fn advance(self, event: RefreshEvent) -> (next: RefreshState)
        ensures
            next == self.advanced(event),
    {
        match (self, event) {
            (RefreshState::AwaitTick, RefreshEvent::Tick) => RefreshState::AwaitConnection,
            (RefreshState::AwaitConnection, RefreshEvent::Connected) => {
                RefreshState::AwaitLastVerified
            },
            (RefreshState::AwaitConnection, RefreshEvent::ConnectionFailed) => {
                RefreshState::AwaitTick
            },
            (RefreshState::AwaitLastVerified, RefreshEvent::Reading(reading)) => {
                RefreshState::AwaitLastCommitted { last_verified: value_or_zero(reading) }
            },
            (RefreshState::AwaitLastCommitted { last_verified }, RefreshEvent::Reading(reading)) => {
                RefreshState::AwaitTotalTransactions {
                    last_verified,
                    last_committed: value_or_zero(reading),
                }
            },
            (
                RefreshState::AwaitTotalTransactions { last_verified, last_committed },
                RefreshEvent::Reading(reading),
            ) => RefreshState::AwaitOutstandingProofs {
                last_verified,
                last_committed,
                total_transactions: value_or_zero(reading),
            },
            (
                RefreshState::AwaitOutstandingProofs {
                    last_verified,
                    last_committed,
                    total_transactions,
                },
                RefreshEvent::Reading(reading),
            ) => RefreshState::Ready {
                status: refresh_snapshot(
                    Some(last_verified),
                    Some(last_committed),
                    Some(total_transactions),
                    reading,
                ),
            },
            (RefreshState::Ready { .. }, RefreshEvent::Published) => RefreshState::AwaitTick,
            (state, _) => state,
        }
    }
}

/// The state reached from `state` after all of `events`.
pub open spec fn run_from(state: RefreshState, events: Seq<RefreshEvent>) -> RefreshState
    decreases events.len(),
{
    if events.len() == 0 {
        state
    } else {
        run_from(state, events.drop_last()).advanced(events.last())
    }
}

/// After a tick and with a connection, a cycle takes exactly four readings,
/// whatever they are, and then publishes the summary built from them: no
/// failed read ends the cycle or keeps it from publishing. The proofs are
/// counted after the last verified block as it was read, zero if that read
/// failed. Once the summary is published the task waits for the next tick.
pub proof fn law_cycle_publishes_after_four_readings(
    last_verified: Option<u32>,
    last_committed: Option<u32>,
    total_transactions: Option<u32>,
    outstanding_txs: Option<u32>,
)
    ensures
        ({
            let ticked = RefreshState::AwaitTick.advanced(RefreshEvent::Tick);
            let connected = ticked.advanced(RefreshEvent::Connected);
            let second = connected.advanced(RefreshEvent::Reading(last_verified));
            let third = second.advanced(RefreshEvent::Reading(last_committed));
            let fourth = third.advanced(RefreshEvent::Reading(total_transactions));
            let ready = fourth.advanced(RefreshEvent::Reading(outstanding_txs));
            &&& RefreshState::AwaitTick.action() == RefreshAction::WaitForTick
            &&& ticked.action() == RefreshAction::Connect
            &&& connected.action() == RefreshAction::ReadLastVerified
            &&& second.action() == RefreshAction::ReadLastCommitted
            &&& third.action() == RefreshAction::CountTotalTransactions
            &&& fourth.action() == RefreshAction::CountOutstandingProofs {
                after_block: or_zero(last_verified),
            }
            &&& ready.action() == RefreshAction::Publish {
                status: snapshot_of(
                    last_verified,
                    last_committed,
                    total_transactions,
                    outstanding_txs,
                ),
            }
            &&& ready.advanced(RefreshEvent::Published) == RefreshState::AwaitTick
        }),
{
}

/// A cycle that cannot connect publishes nothing and does not end the task:
/// whatever is reported next, the task waits for a tick until one comes, and
/// with that tick the next cycle begins by connecting again.
pub proof fn law_failed_connection_waits_for_next_tick(events: Seq<RefreshEvent>)
    requires
        forall|k: int| 0 <= k < events.len() ==> !(events[k] is Tick),
    ensures
        RefreshState::AwaitConnection.advanced(RefreshEvent::ConnectionFailed)
            == RefreshState::AwaitTick,
        run_from(RefreshState::AwaitTick, events) == RefreshState::AwaitTick,
        run_from(RefreshState::AwaitTick, events).action() == RefreshAction::WaitForTick,
        run_from(RefreshState::AwaitTick, events).advanced(RefreshEvent::Tick).action()
            == RefreshAction::Connect,
    decreases events.len(),
{
    if events.len() > 0 {
        law_failed_connection_waits_for_next_tick(events.drop_last());
    }
}

/// The task never comes to an end: in every state that any events lead to,
/// there is a next action, and a summary is published only by a cycle that
/// has taken its four readings.
pub proof fn law_task_always_goes_on(events: Seq<RefreshEvent>)
    ensures
        run_from(RefreshState::AwaitTick, events).action() is Publish <==> run_from(
            RefreshState::AwaitTick,
            events,
        ) is Ready,
        exists|event: RefreshEvent| #[trigger]
            run_from(RefreshState::AwaitTick, events).advanced(event) != run_from(
                RefreshState::AwaitTick,
                events,
            ),
{
    let state = run_from(RefreshState::AwaitTick, events);
    match state {
        RefreshState::AwaitTick => {
            assert(state.advanced(RefreshEvent::Tick) != state);
        },
        RefreshState::AwaitConnection => {
            assert(state.advanced(RefreshEvent::Connected) != state);
        },
        RefreshState::Ready { .. } => {
            assert(state.advanced(RefreshEvent::Published) != state);
        },
        _ => {
            assert(state.advanced(RefreshEvent::Reading(None)) != state);
        },
    }
}

} // verus!
