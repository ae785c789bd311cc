//! Chart cache: one entry per (category, timeframe) key, a fixed time-to-live,
//! and single-flight computation.
//!
//! The cache is a state machine. A request calls [`ChartCache::begin`] and is
//! told one of three things: the entry is fresh and here is its value (a hit
//! serves a cached error too); nobody is computing, so the caller must fetch
//! from the store and [`ChartCache::settle_fetch`] the outcome; or a
//! computation is already in flight, so the caller must wait and then
//! [`ChartCache::read_settled`]. The remote store fetch itself happens between
//! those calls, outside this library.

use vstd::prelude::*;

use crate::domain::{chart_data_of, Chart, ChartView, Timeframe, VoteSummary};

verus! {

/// Time-to-live of every cache entry, in seconds: 24 hours from the moment a
/// computation settles, successful or failed.
pub const TTL_SECONDS: u64 = 86400;

/// Failure of the external data store's fetch.
#[derive(Debug)]
pub struct StoreError {
    /// Cause, kept for server-side diagnostics only; it is never echoed to a
    /// caller of the service.
    pub detail: String,
}

impl View for StoreError {
    type V = Seq<char>;

    open spec fn view(&self) -> Seq<char> {
        self.detail@
    }
}

impl Clone for StoreError {
    fn clone(&self) -> (r: Self)
        ensures
            r == *self,
    {
        StoreError { detail: self.detail.clone() }
    }
}

/// Mathematical value of a cached computation outcome.
pub open spec fn chart_result_view(r: Result<Chart, StoreError>) -> Result<ChartView, Seq<char>> {
    match r {
        Ok(c) => Ok(c@),
        Err(e) => Err(e@),
    }
}

/// Copy a computation outcome without touching the original.
fn clone_chart_result(v: &Result<Chart, StoreError>) -> (r: Result<Chart, StoreError>)
    ensures
        chart_result_view(r) == chart_result_view(*v),
{
    match v {
        Ok(c) => Ok(c.clone()),
        Err(e) => Err(e.clone()),
    }
}

/// State of one cache slot: a computation in flight, or a settled outcome
/// stamped with its completion time.
pub enum SlotState {
    InFlight,
    Settled { value: Result<Chart, StoreError>, computed_at: u64 },
}

/// Mathematical value of a [`SlotState`].
pub enum SlotView {
    InFlight,
    Settled { value: Result<ChartView, Seq<char>>, computed_at: u64 },
}

/// Mathematical value of a slot's state.
pub open spec fn slot_view(s: SlotState) -> SlotView {
    match s {
        SlotState::InFlight => SlotView::InFlight,
        SlotState::Settled { value, computed_at } => SlotView::Settled {
            value: chart_result_view(value),
            computed_at,
        },
    }
}

/// One keyed slot of the cache.
pub struct CacheSlot {
    pub key: u64,
    pub state: SlotState,
}

/// Whether a slot still answers requests at `now`: only a settled entry, and
/// only strictly less than `ttl` after it settled. An in-flight slot answers
/// nobody, and an expired entry is treated as absent.
pub open spec fn fresh_at(slot: SlotView, ttl: u64, now: u64) -> bool {
    match slot {
        SlotView::Settled { computed_at, .. } => computed_at <= now && now - computed_at < ttl,
        SlotView::InFlight => false,
    }
}

/// What a request is told.
pub enum Lookup {
    /// Fresh entry: its outcome, cached errors included.
    Hit(Result<Chart, StoreError>),
    /// Absent or expired entry: this caller alone computes for the key.
    MustCompute,
    /// A computation for the key is in flight: wait for it to settle.
    MustWait,
}

/// The three answers of [`Lookup`], without the hit payload.
pub enum LookupKind {
    Hit,
    MustCompute,
    MustWait,
}

/// Which answer a lookup carries.
pub open spec fn kind_of(r: Lookup) -> LookupKind {
    match r {
        Lookup::Hit(_) => LookupKind::Hit,
        Lookup::MustCompute => LookupKind::MustCompute,
        Lookup::MustWait => LookupKind::MustWait,
    }
}

/// The answer a request for a key in state `slot` receives at `now`.
pub open spec fn lookup_kind(slot: Option<SlotView>, ttl: u64, now: u64) -> LookupKind {
    match slot {
        Some(s) => match s {
            SlotView::InFlight => LookupKind::MustWait,
            SlotView::Settled { .. } => if fresh_at(s, ttl, now) {
                LookupKind::Hit
            } else {
                LookupKind::MustCompute
            },
        },
        None => LookupKind::MustCompute,
    }
}

/// The key's state after that request: a caller told to compute leaves the
/// slot in flight; every other answer leaves the slot as it was.
pub open spec fn slot_after_begin(slot: Option<SlotView>, ttl: u64, now: u64) -> Option<SlotView> {
    if lookup_kind(slot, ttl, now) is MustCompute {
        Some(SlotView::InFlight)
    } else {
        slot
    }
}

/// First-match lookup of a key in a slot sequence.
pub open spec fn seq_get(s: Seq<CacheSlot>, key: u64) -> Option<SlotView>
    decreases s.len(),
{
    if s.len() == 0 {
        None
    } else if s[0].key == key {
        Some(slot_view(s[0].state))
    } else {
        seq_get(s.drop_first(), key)
    }
}

proof fn lemma_seq_get_found(s: Seq<CacheSlot>, key: u64, i: int)
    requires
        0 <= i < s.len(),
        s[i].key == key,
        forall|j: int| 0 <= j < i ==> s[j].key != key,
    ensures
        seq_get(s, key) == Some(slot_view(s[i].state)),
    decreases i,
{
    if i > 0 {
        lemma_seq_get_found(s.drop_first(), key, i - 1);
    }
}

proof fn lemma_seq_get_absent(s: Seq<CacheSlot>, key: u64)
    requires
        forall|j: int| 0 <= j < s.len() ==> s[j].key != key,
    ensures
        seq_get(s, key) == None::<SlotView>,
    decreases s.len(),
{
    if s.len() > 0 {
        lemma_seq_get_absent(s.drop_first(), key);
    }
}

proof fn lemma_seq_get_update(s: Seq<CacheSlot>, key: u64, i: int, slot: CacheSlot)
    requires
        0 <= i < s.len(),
        s[i].key == key,
        slot.key == key,
        forall|j: int| 0 <= j < i ==> s[j].key != key,
    ensures
        seq_get(s.update(i, slot), key) == Some(slot_view(slot.state)),
        forall|k2: u64| k2 != key ==> seq_get(s.update(i, slot), k2) == seq_get(s, k2),
    decreases i,
{
    let u = s.update(i, slot);
    if i == 0 {
        assert(u.drop_first() =~= s.drop_first());
        assert forall|k2: u64| k2 != key implies seq_get(u, k2) == seq_get(s, k2) by {
            assert(seq_get(u, k2) == seq_get(u.drop_first(), k2));
            assert(seq_get(s, k2) == seq_get(s.drop_first(), k2));
        }
    } else {
        lemma_seq_get_update(s.drop_first(), key, i - 1, slot);
        assert(u.drop_first() =~= s.drop_first().update(i - 1, slot));
        assert forall|k2: u64| k2 != key implies seq_get(u, k2) == seq_get(s, k2) by {
            assert(u[0] == s[0]);
            if s[0].key != k2 {
                assert(seq_get(u, k2) == seq_get(u.drop_first(), k2));
                assert(seq_get(s, k2) == seq_get(s.drop_first(), k2));
            }
        }
    }
}

proof fn lemma_seq_get_push(s: Seq<CacheSlot>, slot: CacheSlot)
    requires
        forall|j: int| 0 <= j < s.len() ==> s[j].key != slot.key,
    ensures
        seq_get(s.push(slot), slot.key) == Some(slot_view(slot.state)),
        forall|k2: u64| k2 != slot.key ==> seq_get(s.push(slot), k2) == seq_get(s, k2),
    decreases s.len(),
{
    let u = s.push(slot);
    if s.len() == 0 {
        assert(u.drop_first() =~= Seq::<CacheSlot>::empty());
        assert(u[0] == slot);
        assert forall|k2: u64| k2 != slot.key implies seq_get(u, k2) == seq_get(s, k2) by {
            assert(seq_get(u, k2) == seq_get(u.drop_first(), k2));
            assert(seq_get(u.drop_first(), k2) == None::<SlotView>);
            assert(seq_get(s, k2) == None::<SlotView>);
        }
    } else {
        lemma_seq_get_push(s.drop_first(), slot);
        assert(u.drop_first() =~= s.drop_first().push(slot));
        assert(u[0] == s[0]);
        assert forall|k2: u64| k2 != slot.key implies seq_get(u, k2) == seq_get(s, k2) by {
            if s[0].key != k2 {
                assert(seq_get(u, k2) == seq_get(u.drop_first(), k2));
                assert(seq_get(s, k2) == seq_get(s.drop_first(), k2));
            }
        }
    }
}

/// The memoized charts, keyed by encoded (category, timeframe). The only
/// mutable shared state of the pipeline; the surrounding binary synchronizes
/// access to it and performs the store fetches it is told to make.
pub struct ChartCache {
    pub ttl: u64,
    pub slots: Vec<CacheSlot>,
}

impl ChartCache {
    /// Keys are unique, so each key has one slot.
    pub open spec fn wf(self) -> bool {
        forall|i: int, j: int|
            0 <= i < j < self.slots@.len() ==> self.slots@[i].key != self.slots@[j].key
    }

    /// State of the slot for a key, if the key has one.
    pub open spec fn spec_get(self, key: u64) -> Option<SlotView> {
        seq_get(self.slots@, key)
    }

    /// An empty cache whose entries will live `ttl` seconds.
    pub fn new(ttl: u64) -> (c: ChartCache)
        ensures
            c.wf(),
            c.ttl == ttl,
            forall|k: u64| c.spec_get(k) == None::<SlotView>,
    {
        ChartCache { ttl, slots: Vec::new() }
    }

    /// Index of the slot for a key, if the key has one.
    fn find_slot(&self, key: u64) -> (r: Option<usize>)
        ensures
            match r {
                Some(i) => i < self.slots@.len() && self.slots@[i as int].key == key
                    && (forall|j: int| 0 <= j < i as int ==> self.slots@[j].key != key),
                None => forall|j: int| 0 <= j < self.slots@.len() ==> self.slots@[j].key != key,
            },
    {
        let mut i: usize = 0;
        while i < self.slots.len()
            invariant
                i <= self.slots@.len(),
                forall|j: int| 0 <= j < i as int ==> self.slots@[j].key != key,
            decreases self.slots@.len() - i,
        {
            if self.slots[i].key == key {
                return Some(i);
            }
            i = i + 1;
        }
        None
    }

    /// One request arrives for `key` at time `now`. A fresh settled entry is
    /// answered from the cache, without recomputation and including a cached
    /// error. If a computation is in flight, the caller is told to wait for
    /// it. Otherwise — the key absent, or its entry expired — the slot is
    /// marked in flight and this caller alone is told to compute. Slots of
    /// other keys are never touched.
    pub fn begin(&mut self, key: u64, now: u64) -> (r: Lookup)
        requires
            old(self).wf(),
        ensures
            final(self).wf(),
            final(self).ttl == old(self).ttl,
            kind_of(r) == lookup_kind(old(self).spec_get(key), old(self).ttl, now),
            final(self).spec_get(key) == slot_after_begin(
                old(self).spec_get(key),
                old(self).ttl,
                now,
            ),
            forall|k2: u64| k2 != key ==> final(self).spec_get(k2) == old(self).spec_get(k2),
            (r matches Lookup::Hit(v) ==> old(self).spec_get(key) matches Some(
                SlotView::Settled { value, computed_at },
            ) && chart_result_view(v) == value),
    {
        match self.find_slot(key) {
            Some(i) => {
                proof {
                    lemma_seq_get_found(self.slots@, key, i as int);
                }
                match &self.slots[i].state {
                    SlotState::InFlight => Lookup::MustWait,
                    SlotState::Settled { value, computed_at } => {
                        if *computed_at <= now && now - *computed_at < self.ttl {
                            Lookup::Hit(clone_chart_result(value))
                        } else {
                            let slot = CacheSlot { key, state: SlotState::InFlight };
                            proof {
                                lemma_seq_get_update(self.slots@, key, i as int, slot);
                            }
                            self.slots[i] = slot;
                            Lookup::MustCompute
                        }
                    },
                }
            },
            None => {
                let slot = CacheSlot { key, state: SlotState::InFlight };
                proof {
                    lemma_seq_get_absent(self.slots@, key);
                    lemma_seq_get_push(self.slots@, slot);
                }
                self.slots.push(slot);
                Lookup::MustCompute
            },
        }
    }

    /// Record a computation's outcome for `key` at time `now`. Errors settle
    /// exactly like successes: a failed fetch is remembered for the TTL so a
    /// failing store is not hammered by identical requests. Slots of other
    /// keys are never touched.
    pub fn settle(&mut self, key: u64, value: Result<Chart, StoreError>, now: u64)
        requires
            old(self).wf(),
        ensures
            final(self).wf(),
            final(self).ttl == old(self).ttl,
            final(self).spec_get(key) == Some(
                SlotView::Settled { value: chart_result_view(value), computed_at: now },
            ),
            forall|k2: u64| k2 != key ==> final(self).spec_get(k2) == old(self).spec_get(k2),
    {
        let slot = CacheSlot { key, state: SlotState::Settled { value, computed_at: now } };
        match self.find_slot(key) {
            Some(i) => {
                proof {
                    lemma_seq_get_update(self.slots@, key, i as int, slot);
                }
                self.slots[i] = slot;
            },
            None => {
                proof {
                    lemma_seq_get_push(self.slots@, slot);
                }
                self.slots.push(slot);
            },
        }
    }

    /// The settled outcome for `key`, whatever its age, or `None` while the
    /// key is absent or in flight. A caller that was told to wait reads the
    /// computer's result here once it settles.
    pub fn read_settled(&self, key: u64) -> (r: Option<Result<Chart, StoreError>>)
        ensures
            match self.spec_get(key) {
                Some(SlotView::Settled { value, computed_at }) => r matches Some(v)
                    && chart_result_view(v) == value,
                _ => r is None,
            },
    {
        match self.find_slot(key) {
            Some(i) => {
                proof {
                    lemma_seq_get_found(self.slots@, key, i as int);
                }
                match &self.slots[i].state {
                    SlotState::Settled { value, .. } => Some(clone_chart_result(value)),
                    SlotState::InFlight => None,
                }
            },
            None => {
                proof {
                    lemma_seq_get_absent(self.slots@, key);
                }
                None
            },
        }
    }

    /// The cache's computation: fetch outcome in, aggregation, settled entry
    /// out. On a fetched collection the chart is aggregated and cached; on a
    /// fetch failure the error itself is cached. Either way the outcome is
    /// stamped `now`, returned to the computing caller, and every concurrent
    /// waiter on the key reads this same outcome.
    pub fn settle_fetch(
        &mut self,
        key: u64,
        timeframe: Timeframe,
        fetched: Result<Vec<VoteSummary>, StoreError>,
        now: u64,
    ) -> (r: Result<Chart, StoreError>)
        requires
            old(self).wf(),
        ensures
            final(self).wf(),
            final(self).ttl == old(self).ttl,
            final(self).spec_get(key) == Some(
                SlotView::Settled { value: chart_result_view(r), computed_at: now },
            ),
            forall|k2: u64| k2 != key ==> final(self).spec_get(k2) == old(self).spec_get(k2),
            match fetched {
                Ok(summaries) => r matches Ok(c) && c@.timeframe == timeframe && c@.data.len()
                    == summaries@.len() && (forall|i: int|
                    0 <= i < summaries@.len() ==> c@.data[i] == chart_data_of(summaries@[i]@)),
                Err(e) => r matches Err(e2) && e2@ == e@,
            },
    {
        let outcome: Result<Chart, StoreError> = match fetched {
            Ok(summaries) => Ok(Chart::new(timeframe, summaries)),
            Err(e) => Err(e),
        };
        let kept = clone_chart_result(&outcome);
        self.settle(key, kept, now);
        outcome
    }
}

/// Single-flight: a request told to compute leaves its key in flight, and any
/// request that arrives for that key before the outcome settles is told to
/// wait — never to start a second computation — whatever time it arrives at.
/// Two requests in one TTL window therefore cause at most one store fetch.
pub proof fn lemma_single_flight(slot: Option<SlotView>, ttl: u64, now1: u64, now2: u64)
    ensures
        lookup_kind(slot, ttl, now1) is MustCompute ==> lookup_kind(
            slot_after_begin(slot, ttl, now1),
            ttl,
            now2,
        ) is MustWait,
{
}

/// A hit is served from the cache alone: it changes no state, so it can cause
/// no store fetch, and a second request within the same TTL window hits the
/// very same entry.
pub proof fn lemma_fresh_hit_leaves_cache(slot: Option<SlotView>, ttl: u64, now1: u64, now2: u64)
    ensures
        lookup_kind(slot, ttl, now1) is Hit ==> slot_after_begin(slot, ttl, now1) == slot,
        (slot matches Some(s) && lookup_kind(slot, ttl, now1) is Hit && fresh_at(s, ttl, now2))
            ==> lookup_kind(slot_after_begin(slot, ttl, now1), ttl, now2) is Hit,
{
}

/// An entry that has lived a full TTL is treated as absent: the next request
/// for its key triggers a fresh computation, even though the prior outcome —
/// success or failure — is still stored.
pub proof fn lemma_expired_entry_recomputes(
    value: Result<ChartView, Seq<char>>,
    computed_at: u64,
    ttl: u64,
    now: u64,
)
    requires
        !fresh_at(SlotView::Settled { value, computed_at }, ttl, now),
    ensures
        lookup_kind(Some(SlotView::Settled { value, computed_at }), ttl, now) is MustCompute,
{
}

} // verus!
