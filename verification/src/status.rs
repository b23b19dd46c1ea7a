//! The network status summary and the cell that holds the published copy.
//!
//! The cell itself is sequential. A caller that shares it between threads
//! guards it with a lock, so that reads and publications happen one at a
//! time; the laws below then speak of the order in which they took the lock.

use vstd::prelude::*;

verus! {

/// A summary of chain progress. A value is never changed after it is built:
/// the cache replaces it as a whole.
#[derive(Clone, Copy, Debug, PartialEq, Eq, Structural)]
pub struct NetworkStatus {
    pub next_block_at_max: Option<u64>,
    pub last_committed: u32,
    pub last_verified: u32,
    pub total_transactions: u32,
    pub outstanding_txs: u32,
}

impl NetworkStatus {
    /// The summary before any refresh: all counts zero, no estimate for the
    /// next block.
    pub open spec fn initial() -> NetworkStatus {
        NetworkStatus {
            next_block_at_max: None,
            last_committed: 0,
            last_verified: 0,
            total_transactions: 0,
            outstanding_txs: 0,
        }
    }
}

impl Default for NetworkStatus {
    fn default() -> (status: NetworkStatus)
        ensures
            status == NetworkStatus::initial(),
    {
        NetworkStatus {
            next_block_at_max: None,
            last_committed: 0,
            last_verified: 0,
            total_transactions: 0,
            outstanding_txs: 0,
        }
    }
}

/// What the cache holds: the published summary, and whether any refresh has
/// been published yet.
pub struct CacheState {
    pub snapshot: NetworkStatus,
    pub live: bool,
}

/// What can happen to the cache.
pub enum CacheEvent {
    /// A reader takes a copy of the published summary.
    Read,
    /// The updater publishes a new summary.
    Publish(NetworkStatus),
}

impl CacheState {
    /// The cache at service start.
    pub open spec fn initial() -> CacheState {
        CacheState { snapshot: NetworkStatus::initial(), live: false }
    }

    /// The cache after `event`. A read leaves it as it is; a publication
    /// replaces the whole summary and makes the cache live.
    pub open spec fn step(self, event: CacheEvent) -> CacheState {
        match event {
            CacheEvent::Read => self,
            CacheEvent::Publish(status) => CacheState { snapshot: status, live: true },
        }
    }

    /// The cache after all of `events`, from service start.
    pub open spec fn after(events: Seq<CacheEvent>) -> CacheState
        decreases events.len(),
    {
        if events.len() == 0 {
            CacheState::initial()
        } else {
            CacheState::after(events.drop_last()).step(events.last())
        }
    }
}

/// The cell that holds the published summary. The updater is its only
/// writer; readers get whole copies.
pub struct StatusCache {
    current: NetworkStatus,
    live: bool,
}

impl View for StatusCache {
    type V = CacheState;

    closed spec fn view(&self) -> CacheState {
        CacheState { snapshot: self.current, live: self.live }
    }
}

impl StatusCache {
    /// A cache that holds the initial summary and is not live.
    pub fn new() -> (cache: StatusCache)
        ensures
            cache@ == CacheState::initial(),
    {
        StatusCache { current: NetworkStatus::default(), live: false }
    }

    /// A copy of the published summary.
    pub fn read(&self) -> (status: NetworkStatus)
        ensures
            status == self@.snapshot,
    {
        self.current
    }

    /// Whether a refresh has been published since service start.
    pub fn is_live(&self) -> (live: bool)
        ensures
            live == self@.live,
    {
        self.live
    }

    /// Replaces the published summary by `status`.
    pub fn publish(&mut self, status: NetworkStatus)
        ensures
            final(self)@ == old(self)@.step(CacheEvent::Publish(status)),
    {
        self.current = status;
        self.live = true;
    }
}

/// At any moment the published summary is a whole value: the initial one as
/// long as nothing was published, and from then on exactly the summary of
/// the latest publication.
pub proof fn law_snapshot_is_a_published_value(events: Seq<CacheEvent>)
    ensures
        !CacheState::after(events).live ==> CacheState::after(events) == CacheState::initial()
            && forall|k: int| 0 <= k < events.len() ==> events[k] is Read,
        CacheState::after(events).live ==> exists|k: int|
            0 <= k < events.len() && events[k] == CacheEvent::Publish(
                CacheState::after(events).snapshot,
            ) && forall|m: int| k < m < events.len() ==> events[m] is Read,
    decreases events.len(),
{
    if events.len() > 0 {
        let before = events.drop_last();
        law_snapshot_is_a_published_value(before);
        match events.last() {
            CacheEvent::Read => {
                if CacheState::after(before).live {
                    let k = choose|k: int|
                        0 <= k < before.len() && before[k] == CacheEvent::Publish(
                            CacheState::after(before).snapshot,
                        ) && forall|m: int| k < m < before.len() ==> before[m] is Read;
                    assert(events[k] == before[k]);
                    assert forall|m: int| k < m < events.len() implies events[m] is Read by {
                        if m < before.len() {
                            assert(events[m] == before[m]);
                        }
                    }
                } else {
                    assert forall|k: int| 0 <= k < events.len() implies events[k] is Read by {
                        if k < before.len() {
                            assert(events[k] == before[k]);
                        }
                    }
                }
            },
            CacheEvent::Publish(status) => {
                let k = events.len() - 1;
                assert(events[k] == CacheEvent::Publish(CacheState::after(events).snapshot));
            },
        }
    }
}

/// Reads between two publications see the same summary: if only reads happen
/// from position `i` up to position `j`, the cache at `j` is the cache at
/// `i`.
pub proof fn law_reads_agree_between_publications(events: Seq<CacheEvent>, i: int, j: int)
    requires
        0 <= i <= j <= events.len(),
        forall|k: int| i <= k < j ==> events[k] is Read,
    ensures
        CacheState::after(events.take(j)) == CacheState::after(events.take(i)),
    decreases j - i,
{
    if i < j {
        law_reads_agree_between_publications(events, i, j - 1);
        assert(events.take(j).drop_last() =~= events.take(j - 1));
        assert(events.take(j).last() == events[j - 1]);
    }
}

} // verus!
