use vstd::prelude::*;

use crate::error::WorkerError;
use crate::worker::{is_terminal, RuntimeState};

verus! {

/// An idempotency token that binds one invocation to its result.
#[derive(Clone, Copy, Debug, PartialEq, Eq, Structural, Hash)]
pub struct InvocationKey {
    pub value: u64,
}

/// How the parameters and results of an invocation are encoded.
#[derive(Clone, Copy, Debug, PartialEq, Eq, Structural)]
pub enum CallingConvention {
    Component,
    Stdio,
    StdioEventloop,
}

/// Where an invocation stands.
#[derive(Clone, Debug)]
pub enum KeyState<R> {
    Pending,
    Completed { result: R },
    Failed { error: WorkerError },
}

/// Whether an invocation has finished, one way or the other.
pub open spec fn is_finished<R>(s: KeyState<R>) -> bool {
    !(s is Pending)
}

/// The registry of invocation keys of one worker.
pub struct KeyRegistry<R> {
    next_key: u64,
    entries: Vec<(InvocationKey, KeyState<R>)>,
}

/// What `complete` makes of the registry's contents.
pub open spec fn completed_view<R>(
    v: Map<u64, KeyState<R>>,
    key: u64,
    outcome: Result<R, WorkerError>,
) -> Map<u64, KeyState<R>> {
    if v.contains_key(key) && v[key] is Pending {
        v.insert(
            key,
            match outcome {
                Ok(result) => KeyState::Completed { result },
                Err(error) => KeyState::Failed { error },
            },
        )
    } else {
        v
    }
}

/// One change to a registry: a new key, or an outcome handed in for a key.
pub enum KeyChange<R> {
    Mint { key: u64 },
    Complete { key: u64, outcome: Result<R, WorkerError> },
}

/// The registry's contents after one change. A new key is only ever one not in use.
pub open spec fn after_change<R>(v: Map<u64, KeyState<R>>, c: KeyChange<R>) -> Map<
    u64,
    KeyState<R>,
> {
    match c {
        KeyChange::Mint { key } => if v.contains_key(key) {
            v
        } else {
            v.insert(key, KeyState::Pending)
        },
        KeyChange::Complete { key, outcome } => completed_view(v, key, outcome),
    }
}

/// The registry's contents after a run of changes, in order.
pub open spec fn after_changes<R>(v: Map<u64, KeyState<R>>, cs: Seq<KeyChange<R>>) -> Map<
    u64,
    KeyState<R>,
>
    decreases cs.len(),
{
    if cs.len() == 0 {
        v
    } else {
        after_change(after_changes(v, cs.drop_last()), cs.last())
    }
}

/// Why an outcome could not be recorded.
#[derive(Clone, Copy, Debug, PartialEq, Eq, Structural)]
pub enum CompleteError {
    UnknownKey,
    AlreadyFinished,
}

impl<R> View for KeyRegistry<R> {
    type V = Map<u64, KeyState<R>>;

    closed spec fn view(&self) -> Map<u64, KeyState<R>> {
        Map::new(
            |k: u64| exists|i: int| 0 <= i < self.entries@.len() && self.entries@[i].0.value == k,
            |k: u64|
                self.entries@[choose|i: int|
                    0 <= i < self.entries@.len() && self.entries@[i].0.value == k].1,
        )
    }
}

impl<R> KeyRegistry<R> {
    /// Keys are distinct and all below the next one to be minted.
    pub closed spec fn wf(&self) -> bool {
        &&& forall|i: int, j: int|
            0 <= i < j < self.entries@.len() ==> self.entries@[i].0.value
                != self.entries@[j].0.value
        &&& forall|i: int|
            0 <= i < self.entries@.len() ==> self.entries@[i].0.value < self.next_key
    }

    pub closed spec fn next_key_spec(&self) -> u64 {
        self.next_key
    }

    proof fn lemma_view_at(&self, i: int)
        requires
            self.wf(),
            0 <= i < self.entries@.len(),
        ensures
            self@.contains_key(self.entries@[i].0.value),
            self@[self.entries@[i].0.value] == self.entries@[i].1,
    {
        let k = self.entries@[i].0.value;
        let j = choose|j: int| 0 <= j < self.entries@.len() && self.entries@[j].0.value == k;
        assert(i == j);
    }

    /// An empty registry.
    pub fn new() -> (r: Self)
        ensures
            r.wf(),
            r@ == Map::<u64, KeyState<R>>::empty(),
            r.next_key_spec() == 0,
    {
        let r = KeyRegistry { next_key: 0, entries: Vec::new() };
        assert(r@ =~= Map::<u64, KeyState<R>>::empty());
        r
    }

    fn find(&self, key: InvocationKey) -> (r: Option<usize>)
        requires
            self.wf(),
        ensures
            r is None ==> !self@.contains_key(key.value),
            r matches Some(i) ==> i < self.entries@.len() && self.entries@[i as int].0.value
                == key.value,
    {
        let mut i: usize = 0;
        while i < self.entries.len()
            invariant
                i <= self.entries@.len(),
                forall|j: int| 0 <= j < i ==> self.entries@[j].0.value != key.value,
            decreases self.entries.len() - i,
        {
            if self.entries[i].0.value == key.value {
                return Some(i);
            }
            i = i + 1;
        }
        None
    }

    /// Mints a key that has not been used before and registers it as pending.
    /// Fails only when the key space is used up.
    pub fn mint(&mut self) -> (r: Option<InvocationKey>)
        requires
            old(self).wf(),
        ensures
            final(self).wf(),
            r is None <==> old(self).next_key_spec() == u64::MAX,
            r is None ==> final(self)@ == old(self)@,
            r is None ==> final(self).next_key_spec() == old(self).next_key_spec(),
            r matches Some(k) ==> {
                &&& !old(self)@.contains_key(k.value)
                &&& final(self)@ == old(self)@.insert(k.value, KeyState::Pending)
                &&& final(self).next_key_spec() == old(self).next_key_spec() + 1
            },
    {
        if self.next_key == u64::MAX {
            return None;
        }
        let key = InvocationKey { value: self.next_key };
        let ghost before = *self;
        proof {
            if before@.contains_key(key.value) {
                let i = choose|i: int|
                    0 <= i < before.entries@.len() && before.entries@[i].0.value == key.value;
                assert(before.entries@[i].0.value < before.next_key);
            }
        }
        self.entries.push((key, KeyState::Pending));
        self.next_key = self.next_key + 1;
        proof {
            let n = before.entries@.len() as int;
            assert forall|k: u64| #[trigger] self@.contains_key(k) == before@.insert(
                key.value,
                KeyState::Pending,
            ).contains_key(k) by {
                if k != key.value && self@.contains_key(k) {
                    let i = choose|i: int|
                        0 <= i < self.entries@.len() && self.entries@[i].0.value == k;
                    assert(i < n);
                    assert(before.entries@[i].0.value == k);
                }
                if before@.contains_key(k) {
                    let i = choose|i: int|
                        0 <= i < before.entries@.len() && before.entries@[i].0.value == k;
                    assert(self.entries@[i].0.value == k);
                }
                if k == key.value {
                    assert(self.entries@[n].0.value == k);
                }
            }
            assert forall|k: u64| #[trigger] self@.contains_key(k) implies self@[k] == before@.insert(
                key.value,
                KeyState::Pending,
            )[k] by {
                let i = choose|i: int|
                    0 <= i < self.entries@.len() && self.entries@[i].0.value == k;
                self.lemma_view_at(i);
                if i < n {
                    before.lemma_view_at(i);
                }
            }
            assert(self@ =~= before@.insert(key.value, KeyState::Pending));
        }
        Some(key)
    }

    /// Records the outcome of a pending invocation. A key that is unknown or
    /// already finished is left as it was.
    pub fn complete(&mut self, key: InvocationKey, outcome: Result<R, WorkerError>) -> (r: Result<
        (),
        CompleteError,
    >)
        requires
            old(self).wf(),
        ensures
            final(self).wf(),
            final(self).next_key_spec() == old(self).next_key_spec(),
            final(self)@ == completed_view(old(self)@, key.value, outcome),
            r == Err::<(), _>(CompleteError::UnknownKey) <==> !old(self)@.contains_key(key.value),
            r == Err::<(), _>(CompleteError::AlreadyFinished) <==> (old(self)@.contains_key(
                key.value,
            ) && is_finished(old(self)@[key.value])),
            r is Ok <==> (old(self)@.contains_key(key.value) && old(self)@[key.value] is Pending),
    {
        match self.find(key) {
            None => Err(CompleteError::UnknownKey),
            Some(i) => {
                proof {
                    self.lemma_view_at(i as int);
                }
                if !matches!(self.entries[i].1, KeyState::Pending) {
                    return Err(CompleteError::AlreadyFinished);
                }
                let state = match outcome {
                    Ok(result) => KeyState::Completed { result },
                    Err(error) => KeyState::Failed { error },
                };
                let ghost before = *self;
                self.entries.set(i, (key, state));
                proof {
                    let want = completed_view(before@, key.value, outcome);
                    assert forall|k: u64| #[trigger] self@.contains_key(k) == want.contains_key(
                        k,
                    ) by {
                        if self@.contains_key(k) {
                            let j = choose|j: int|
                                0 <= j < self.entries@.len() && self.entries@[j].0.value == k;
                            assert(before.entries@[j].0.value == k);
                        }
                        if before@.contains_key(k) {
                            let j = choose|j: int|
                                0 <= j < before.entries@.len() && before.entries@[j].0.value == k;
                            assert(self.entries@[j].0.value == k);
                        }
                    }
                    assert forall|k: u64| #[trigger] self@.contains_key(k) implies self@[k]
                        == want[k] by {
                        let j = choose|j: int|
                            0 <= j < self.entries@.len() && self.entries@[j].0.value == k;
                        self.lemma_view_at(j);
                        if j != i {
                            before.lemma_view_at(j);
                        }
                    }
                    assert(self@ =~= want);
                }
                Ok(())
            },
        }
    }

    /// Where the invocation under `key` stands; `None` for a key never minted here.
    pub fn await_key(&self, key: InvocationKey) -> (r: Option<&KeyState<R>>)
        requires
            self.wf(),
        ensures
            r is None <==> !self@.contains_key(key.value),
            r matches Some(s) ==> *s == self@[key.value],
    {
        match self.find(key) {
            None => None,
            Some(i) => {
                proof {
                    self.lemma_view_at(i as int);
                }
                Some(&self.entries[i].1)
            },
        }
    }
}

/// Once an invocation has finished, its state is what every later look at the key
/// sees, whatever keys are minted and whatever outcomes are handed in afterwards:
/// a key goes from pending to finished once and never back.
pub proof fn finished_state_is_kept<R>(
    v: Map<u64, KeyState<R>>,
    key: u64,
    changes: Seq<KeyChange<R>>,
)
    requires
        v.contains_key(key),
        is_finished(v[key]),
    ensures
        after_changes(v, changes).contains_key(key),
        after_changes(v, changes)[key] == v[key],
    decreases changes.len(),
{
    if changes.len() > 0 {
        finished_state_is_kept(v, key, changes.drop_last());
    }
}

/// A pending key moves only to a finished state, the one that the outcome gives.
pub proof fn pending_moves_once<R>(v: Map<u64, KeyState<R>>, key: u64, outcome: Result<R, WorkerError>)
    requires
        v.contains_key(key),
        v[key] is Pending,
    ensures
        is_finished(completed_view(v, key, outcome)[key]),
        outcome matches Ok(result) ==> completed_view(v, key, outcome)[key] == (KeyState::<
            R,
        >::Completed { result }),
        outcome matches Err(error) ==> completed_view(v, key, outcome)[key] == (KeyState::<
            R,
        >::Failed { error }),
{
}

/// An echo under the component convention hands back what it was given: parameters
/// queued for an idle worker are the next invocation to run, and once the echo's
/// result is recorded under the pending key, every look at that key sees exactly
/// those parameters.
pub proof fn echo_round_trip<R>(
    queue: Seq<R>,
    v: Map<u64, KeyState<R>>,
    key: u64,
    params: R,
    later: Seq<KeyChange<R>>,
)
    requires
        queue.len() == 0,
        v.contains_key(key),
        v[key] is Pending,
    ensures
        queue.push(params)[0] == params,
        after_changes(completed_view(v, key, Ok(params)), later)[key] == (KeyState::<R>::Completed {
            result: params,
        }),
{
    let done = completed_view(v, key, Ok(params));
    finished_state_is_kept(done, key, later);
}

/// The pending invocations of one worker, first in first out.
pub struct InvocationQueue<Q> {
    items: Vec<Q>,
}

/// Why an invocation was not queued.
#[derive(Clone, Copy, Debug, PartialEq, Eq, Structural)]
pub enum EnqueueError {
    WorkerFailed,
    WorkerExited,
}

impl<Q> View for InvocationQueue<Q> {
    type V = Seq<Q>;

    closed spec fn view(&self) -> Seq<Q> {
        self.items@
    }
}

impl<Q> InvocationQueue<Q> {
    /// An empty queue.
    pub fn new() -> (r: Self)
        ensures
            r@ == Seq::<Q>::empty(),
    {
        InvocationQueue { items: Vec::new() }
    }

    /// Queues an invocation behind all others, unless the worker has failed or exited.
    pub fn enqueue(&mut self, worker_state: RuntimeState, item: Q) -> (r: Result<(), EnqueueError>)
        ensures
            worker_state == RuntimeState::Failed ==> r == Err::<(), _>(EnqueueError::WorkerFailed),
            worker_state == RuntimeState::Exited ==> r == Err::<(), _>(EnqueueError::WorkerExited),
            r is Ok <==> !is_terminal(worker_state),
            r is Ok ==> final(self)@ == old(self)@.push(item),
            r is Err ==> final(self)@ == old(self)@,
    {
        match worker_state {
            RuntimeState::Failed => Err(EnqueueError::WorkerFailed),
            RuntimeState::Exited => Err(EnqueueError::WorkerExited),
            _ => {
                self.items.push(item);
                Ok(())
            },
        }
    }

    /// Takes the invocation that has waited longest.
    pub fn next(&mut self) -> (r: Option<Q>)
        ensures
            old(self)@.len() == 0 ==> r is None && final(self)@ == old(self)@,
            old(self)@.len() > 0 ==> r == Some(old(self)@[0]) && final(self)@ == old(self)@.drop_first(),
    {
        if self.items.len() == 0 {
            None
        } else {
            Some(self.items.remove(0))
        }
    }

    pub fn len(&self) -> (r: usize)
        ensures
            r == self@.len(),
    {
        self.items.len()
    }
}

/// Invocations leave a queue in the order in which they were queued: of two queued
/// one after the other onto a queue, the earlier comes out first.
pub proof fn queue_keeps_order<Q>(q: Seq<Q>, a: Q, b: Q)
    ensures
        ({
            let full = q.push(a).push(b);
            full.subrange(q.len() as int, full.len() as int) == seq![a, b]
        }),
{
    let full = q.push(a).push(b);
    assert(full.subrange(q.len() as int, full.len() as int) =~= seq![a, b]);
}

} // verus!
