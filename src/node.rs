use vstd::prelude::*;

use crate::ids::{same_worker, WorkerId};
use crate::log::LogEvent;
use crate::worker::RuntimeState;

verus! {

/// A live worker runtime held by an executor node.
#[derive(Clone, Debug)]
pub struct CachedWorker {
    pub worker_id: WorkerId,
    pub state: RuntimeState,
    pub last_used: u64,
}

/// How a worker was admitted to the cache.
#[derive(Clone, Debug)]
pub enum Admission {
    /// It was live already.
    Found,
    /// A runtime was made for it in a free slot.
    Instantiated,
    /// A runtime was made for it in place of the given suspended worker.
    Evicted { worker_id: WorkerId },
}

/// The cache is full and no worker in it is suspended.
#[derive(Clone, Copy, Debug, PartialEq, Eq, Structural)]
pub struct CacheFull;

/// The bounded cache of live worker runtimes of one executor node.
pub struct WorkerCache {
    capacity: usize,
    clock: u64,
    entries: Vec<CachedWorker>,
}

/// The position of the worker in the entries, or -1.
pub open spec fn position_of(entries: Seq<CachedWorker>, w: WorkerId) -> int
    decreases entries.len(),
{
    if entries.len() == 0 {
        -1
    } else if same_worker(entries.last().worker_id, w) {
        entries.len() - 1
    } else {
        position_of(entries.drop_last(), w)
    }
}

/// Whether entry `i` is the least recently used suspended worker.
pub open spec fn is_eviction_victim(entries: Seq<CachedWorker>, i: int) -> bool {
    &&& 0 <= i < entries.len()
    &&& entries[i].state == RuntimeState::Suspended
    &&& forall|j: int|
        0 <= j < entries.len() && entries[j].state == RuntimeState::Suspended
            ==> entries[i].last_used <= #[trigger] entries[j].last_used
}

/// Whether some worker in the entries is suspended.
pub open spec fn has_suspended(entries: Seq<CachedWorker>) -> bool {
    exists|j: int| 0 <= j < entries.len() && entries[j].state == RuntimeState::Suspended
}

proof fn lemma_position_of(entries: Seq<CachedWorker>, w: WorkerId)
    ensures
        -1 <= position_of(entries, w) < entries.len(),
        position_of(entries, w) >= 0 ==> same_worker(entries[position_of(entries, w)].worker_id, w),
        position_of(entries, w) < 0 ==> forall|k: int|
            0 <= k < entries.len() ==> !same_worker(entries[k].worker_id, w),
    decreases entries.len(),
{
    if entries.len() > 0 && !same_worker(entries.last().worker_id, w) {
        lemma_position_of(entries.drop_last(), w);
        assert forall|k: int| 0 <= k < entries.len() - 1 implies entries[k] == entries.drop_last()[k] by {}
    }
}

impl WorkerCache {
    pub closed spec fn entries_spec(&self) -> Seq<CachedWorker> {
        self.entries@
    }

    pub closed spec fn capacity_spec(&self) -> nat {
        self.capacity as nat
    }

    /// The cache never holds more workers than its capacity.
    pub closed spec fn wf(&self) -> bool {
        self.entries@.len() <= self.capacity
    }

    /// An empty cache for at most `capacity` workers.
    pub fn new(capacity: usize) -> (r: WorkerCache)
        ensures
            r.wf(),
            r.capacity_spec() == capacity,
            r.entries_spec() == Seq::<CachedWorker>::empty(),
    {
        WorkerCache { capacity, clock: 0, entries: Vec::new() }
    }

    fn tick(&mut self) -> (r: u64)
        ensures
            final(self).entries == old(self).entries,
            final(self).capacity == old(self).capacity,
    {
        let now = self.clock;
        if self.clock < u64::MAX {
            self.clock = self.clock + 1;
        }
        now
    }

    fn find(&self, worker_id: &WorkerId) -> (r: Option<usize>)
        ensures
            r is None ==> position_of(self.entries@, *worker_id) < 0,
            r matches Some(i) ==> i as int == position_of(self.entries@, *worker_id),
    {
        let mut found: Option<usize> = None;
        let mut i: usize = 0;
        while i < self.entries.len()
            invariant
                i <= self.entries@.len(),
                found is None ==> position_of(self.entries@.subrange(0, i as int), *worker_id) < 0,
                found matches Some(k) ==> k as int == position_of(
                    self.entries@.subrange(0, i as int),
                    *worker_id,
                ),
            decreases self.entries.len() - i,
        {
            let ghost pre = self.entries@.subrange(0, i as int + 1);
            assert(pre.drop_last() =~= self.entries@.subrange(0, i as int));
            if self.entries[i].worker_id.same_as(worker_id) {
                found = Some(i);
            }
            i = i + 1;
        }
        assert(self.entries@.subrange(0, i as int) =~= self.entries@);
        found
    }

    fn victim(&self) -> (r: Option<usize>)
        ensures
            r is None ==> !has_suspended(self.entries@),
            r matches Some(i) ==> is_eviction_victim(self.entries@, i as int),
    {
        let mut best: Option<usize> = None;
        let mut i: usize = 0;
        while i < self.entries.len()
            invariant
                i <= self.entries@.len(),
                best is None ==> forall|j: int|
                    0 <= j < i ==> self.entries@[j].state != RuntimeState::Suspended,
                best matches Some(b) ==> {
                    &&& b < i
                    &&& self.entries@[b as int].state == RuntimeState::Suspended
                    &&& forall|j: int|
                        0 <= j < i && self.entries@[j].state == RuntimeState::Suspended
                            ==> self.entries@[b as int].last_used <= #[trigger] self.entries@[j].last_used
                },
            decreases self.entries.len() - i,
        {
            if self.entries[i].state == RuntimeState::Suspended {
                match best {
                    None => {
                        best = Some(i);
                    },
                    Some(b) => {
                        if self.entries[i].last_used < self.entries[b].last_used {
                            best = Some(i);
                        }
                    },
                }
            }
            i = i + 1;
        }
        best
    }

    /// Finds or makes the runtime of a worker. When the cache is full, the least
    /// recently used suspended worker makes room; a running worker is never evicted.
    pub fn acquire(&mut self, worker_id: WorkerId) -> (r: Result<Admission, CacheFull>)
        requires
            old(self).wf(),
        ensures
            final(self).wf(),
            final(self).capacity_spec() == old(self).capacity_spec(),
            ({
                let old_entries = old(self).entries_spec();
                let new_entries = final(self).entries_spec();
                let p = position_of(old_entries, worker_id);
                if p >= 0 {
                    &&& r matches Ok(Admission::Found)
                    &&& new_entries.len() == old_entries.len()
                    &&& forall|k: int|
                        0 <= k < old_entries.len() ==> new_entries[k].worker_id
                            == old_entries[k].worker_id && new_entries[k].state
                            == old_entries[k].state
                } else if old_entries.len() < old(self).capacity_spec() {
                    &&& r matches Ok(Admission::Instantiated)
                    &&& new_entries.drop_last() == old_entries
                    &&& new_entries.last().worker_id == worker_id
                    &&& new_entries.last().state == RuntimeState::Idle
                } else if has_suspended(old_entries) {
                    exists|v: int|
                        #![trigger old_entries[v]]
                        is_eviction_victim(old_entries, v) && r == Ok::<Admission, CacheFull>(
                            Admission::Evicted { worker_id: old_entries[v].worker_id },
                        ) && new_entries.drop_last() == old_entries.remove(v)
                            && new_entries.last().worker_id == worker_id
                            && new_entries.last().state == RuntimeState::Idle
                } else {
                    r == Err::<Admission, CacheFull>(CacheFull) && new_entries == old_entries
                }
            }),
    {
        let now = self.tick();
        match self.find(&worker_id) {
            Some(i) => {
                proof {
                    lemma_position_of(self.entries@, worker_id);
                }
                let ghost before = self.entries@;
                let mut e = self.entries.remove(i);
                e.last_used = now;
                self.entries.insert(i, e);
                proof {
                    assert forall|k: int| 0 <= k < before.len() implies self.entries@[k].worker_id
                        == before[k].worker_id && self.entries@[k].state == before[k].state by {
                        if k < i {
                            assert(self.entries@[k] == before[k]);
                        } else if k > i {
                            assert(self.entries@[k] == before[k]);
                        }
                    }
                }
                Ok(Admission::Found)
            },
            None => {
                let fresh = CachedWorker { worker_id, state: RuntimeState::Idle, last_used: now };
                if self.entries.len() < self.capacity {
                    let ghost before = self.entries@;
                    self.entries.push(fresh);
                    assert(self.entries@.drop_last() =~= before);
                    Ok(Admission::Instantiated)
                } else {
                    match self.victim() {
                        None => Err(CacheFull),
                        Some(v) => {
                            let ghost before = self.entries@;
                            let evicted = self.entries.remove(v);
                            self.entries.push(fresh);
                            assert(self.entries@.drop_last() =~= before.remove(v as int));
                            assert(before[v as int] == evicted);
                            Ok(Admission::Evicted { worker_id: evicted.worker_id })
                        },
                    }
                }
            },
        }
    }

    /// Records a new state for a live worker; `false` when the worker is not live here.
    pub fn set_state(&mut self, worker_id: &WorkerId, state: RuntimeState) -> (r: bool)
        requires
            old(self).wf(),
        ensures
            final(self).wf(),
            final(self).capacity_spec() == old(self).capacity_spec(),
            r == (position_of(old(self).entries_spec(), *worker_id) >= 0),
            !r ==> final(self).entries_spec() == old(self).entries_spec(),
            r ==> final(self).entries_spec() == old(self).entries_spec().update(
                position_of(old(self).entries_spec(), *worker_id),
                CachedWorker { state, ..old(self).entries_spec()[position_of(
                    old(self).entries_spec(),
                    *worker_id,
                )] },
            ),
    {
        match self.find(worker_id) {
            None => false,
            Some(i) => {
                proof {
                    lemma_position_of(self.entries@, *worker_id);
                }
                let ghost before = self.entries@;
                let mut e = self.entries.remove(i);
                e.state = state;
                self.entries.insert(i, e);
                assert(self.entries@ =~= before.update(i as int, CachedWorker { state, ..before[i as int] }));
                true
            },
        }
    }

    /// The number of live workers.
    pub fn len(&self) -> (r: usize)
        ensures
            r == self.entries_spec().len(),
    {
        self.entries.len()
    }

    /// The state of a live worker.
    pub fn state_of(&self, worker_id: &WorkerId) -> (r: Option<RuntimeState>)
        ensures
            r is None <==> position_of(self.entries_spec(), *worker_id) < 0,
            r matches Some(s) ==> s == self.entries_spec()[position_of(
                self.entries_spec(),
                *worker_id,
            )].state,
    {
        match self.find(worker_id) {
            None => None,
            Some(i) => {
                proof {
                    lemma_position_of(self.entries@, *worker_id);
                }
                Some(self.entries[i].state)
            },
        }
    }
}

/// An eviction never takes a running worker: the victim is always suspended.
pub proof fn running_workers_are_never_evicted(entries: Seq<CachedWorker>, v: int)
    requires
        is_eviction_victim(entries, v),
    ensures
        entries[v].state != RuntimeState::Running,
{
}

/// An item of a log stream handed to a slow client.
#[derive(Clone, Debug)]
pub enum StreamItem {
    Event { event: LogEvent },
    /// Events were dropped here because the client fell behind.
    Overflow,
}

/// The events waiting for one log-stream client, bounded by a high-water mark.
pub struct EventBuffer {
    high_water: usize,
    items: Vec<StreamItem>,
}

/// What the buffer holds after an event arrives: the event while there is room;
/// once full, one overflow marker, after which further events are dropped.
pub open spec fn buffered(items: Seq<StreamItem>, high_water: nat, event: LogEvent) -> Seq<
    StreamItem,
> {
    if items.len() < high_water {
        items.push(StreamItem::Event { event })
    } else if items.len() > 0 && items.last() is Overflow {
        items
    } else {
        items.push(StreamItem::Overflow)
    }
}

impl View for EventBuffer {
    type V = Seq<StreamItem>;

    closed spec fn view(&self) -> Seq<StreamItem> {
        self.items@
    }
}

impl EventBuffer {
    pub closed spec fn high_water_spec(&self) -> nat {
        self.high_water as nat
    }

    /// Holds at most one item past the high-water mark, and that item is the marker.
    pub closed spec fn wf(&self) -> bool {
        ||| self.items@.len() <= self.high_water
        ||| (self.items@.len() == self.high_water + 1 && self.items@.last() is Overflow)
    }

    /// An empty buffer with the given high-water mark.
    pub fn new(high_water: usize) -> (r: EventBuffer)
        ensures
            r.wf(),
            r@ == Seq::<StreamItem>::empty(),
            r.high_water_spec() == high_water,
    {
        EventBuffer { high_water, items: Vec::new() }
    }

    /// Takes in an event for the client.
    pub fn push(&mut self, event: LogEvent)
        requires
            old(self).wf(),
        ensures
            final(self).wf(),
            final(self).high_water_spec() == old(self).high_water_spec(),
            final(self)@ == buffered(old(self)@, old(self).high_water_spec(), event),
    {
        let n = self.items.len();
        if n < self.high_water {
            self.items.push(StreamItem::Event { event });
        } else if n > 0 && matches!(self.items[n - 1], StreamItem::Overflow) {
        } else {
            self.items.push(StreamItem::Overflow);
        }
    }

    /// Hands the oldest item to the client.
    pub fn pop(&mut self) -> (r: Option<StreamItem>)
        requires
            old(self).wf(),
        ensures
            final(self).wf(),
            final(self).high_water_spec() == old(self).high_water_spec(),
            old(self)@.len() == 0 ==> r is None && final(self)@ == old(self)@,
            old(self)@.len() > 0 ==> r == Some(old(self)@[0]) && final(self)@ == old(self)@.drop_first(),
    {
        if self.items.len() == 0 {
            None
        } else {
            Some(self.items.remove(0))
        }
    }
}

/// A client that falls behind sees an overflow marker where events were dropped:
/// an event that does not fit is either kept or marked, never dropped unseen.
pub proof fn overflow_is_never_silent(items: Seq<StreamItem>, high_water: nat, event: LogEvent)
    ensures
        ({
            let after = buffered(items, high_water, event);
            after.last() == (StreamItem::Event { event }) || after.last() is Overflow
        }),
{
}

} // verus!
