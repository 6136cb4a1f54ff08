use vstd::prelude::*;

use crate::worker::OplogRegion;

verus! {

/// What an oplog entry records.
#[derive(Clone, Copy, Debug, PartialEq, Eq, Structural)]
pub enum OplogEntryKind {
    Invocation,
    EffectResult,
    Suspend,
    Resume,
    InterruptMarker,
    ExitMarker,
    Log,
}

/// One record of a worker's oplog.
#[derive(Clone, Debug)]
pub struct OplogEntry {
    pub timestamp: u64,
    pub kind: OplogEntryKind,
    pub payload: Vec<u8>,
}

/// The append-only log of one worker. Indexes start at 1 and are dense.
pub struct Oplog {
    entries: Vec<OplogEntry>,
    deleted_regions: Vec<OplogRegion>,
}

/// Whether the region covers the index.
pub open spec fn covers(r: OplogRegion, idx: nat) -> bool {
    r.start <= idx <= r.end
}

/// Whether some region covers the index.
pub open spec fn is_deleted_in(regions: Seq<OplogRegion>, idx: nat) -> bool {
    exists|j: int| 0 <= j < regions.len() && covers(regions[j], idx)
}

/// The first index from `pos` on that no region covers, or the first index past
/// the end of the log.
pub open spec fn first_live_from(len: nat, regions: Seq<OplogRegion>, pos: nat) -> nat
    decreases len + 1 - pos,
{
    if pos > len || !is_deleted_in(regions, pos) {
        pos
    } else {
        first_live_from(len, regions, pos + 1)
    }
}

/// What a replay cursor finds when the worker asks for an effect.
#[derive(Clone, Copy, Debug, PartialEq, Eq, Structural)]
pub enum ReplayStep {
    /// The effect was recorded at this index: its recorded result is to be used.
    Replayed { index: u64 },
    /// The log has no more entries: the effect is to be performed and appended.
    Live,
}

/// The recorded entry is of another kind than the effect asked for.
#[derive(Clone, Copy, Debug, PartialEq, Eq, Structural)]
pub struct UnexpectedOplogEntry {
    pub expected: OplogEntryKind,
    pub got: OplogEntryKind,
}

/// One replay step on a log: the outcome and the cursor's next position.
pub open spec fn replay_step(
    entries: Seq<OplogEntry>,
    regions: Seq<OplogRegion>,
    pos: nat,
    kind: OplogEntryKind,
) -> (Result<ReplayStep, UnexpectedOplogEntry>, nat) {
    let p = first_live_from(entries.len(), regions, pos);
    if p > entries.len() {
        (Ok(ReplayStep::Live), p)
    } else if entries[p - 1].kind == kind {
        (Ok(ReplayStep::Replayed { index: p as u64 }), p + 1)
    } else {
        (Err(UnexpectedOplogEntry { expected: kind, got: entries[p - 1].kind }), p)
    }
}

/// The outcomes of replaying a run of requested effects from `pos` on; a mismatch
/// ends the run.
pub open spec fn replay_run(
    entries: Seq<OplogEntry>,
    regions: Seq<OplogRegion>,
    pos: nat,
    kinds: Seq<OplogEntryKind>,
) -> Seq<Result<ReplayStep, UnexpectedOplogEntry>>
    decreases kinds.len(),
{
    if kinds.len() == 0 {
        Seq::empty()
    } else {
        let (r, next) = replay_step(entries, regions, pos, kinds[0]);
        if r is Err {
            seq![r]
        } else {
            seq![r] + replay_run(entries, regions, next, kinds.drop_first())
        }
    }
}

/// One change to a log: an entry appended, or a region marked deleted.
pub enum OplogChange {
    Append { entry: OplogEntry },
    MarkDeleted { region: OplogRegion },
}

/// The entries of a log after a run of changes.
pub open spec fn entries_after(entries: Seq<OplogEntry>, changes: Seq<OplogChange>) -> Seq<
    OplogEntry,
>
    decreases changes.len(),
{
    if changes.len() == 0 {
        entries
    } else {
        let before = entries_after(entries, changes.drop_last());
        match changes.last() {
            OplogChange::Append { entry } => before.push(entry),
            OplogChange::MarkDeleted { .. } => before,
        }
    }
}

impl Oplog {
    pub closed spec fn entries_spec(&self) -> Seq<OplogEntry> {
        self.entries@
    }

    pub closed spec fn regions_spec(&self) -> Seq<OplogRegion> {
        self.deleted_regions@
    }

    /// An empty log.
    pub fn new() -> (r: Oplog)
        ensures
            r.entries_spec() == Seq::<OplogEntry>::empty(),
            r.regions_spec() == Seq::<OplogRegion>::empty(),
    {
        Oplog { entries: Vec::new(), deleted_regions: Vec::new() }
    }

    /// The index of the last entry; 0 for an empty log.
    pub fn last_index(&self) -> (r: u64)
        requires
            self.entries_spec().len() <= u64::MAX,
        ensures
            r == self.entries_spec().len(),
    {
        self.entries.len() as u64
    }

    /// Appends an entry and returns its index.
    pub fn append(&mut self, entry: OplogEntry) -> (r: u64)
        requires
            old(self).entries_spec().len() < u64::MAX,
        ensures
            final(self).entries_spec() == old(self).entries_spec().push(entry),
            final(self).regions_spec() == old(self).regions_spec(),
            r == final(self).entries_spec().len(),
    {
        self.entries.push(entry);
        self.entries.len() as u64
    }

    /// The entry at an index, if the log has one there.
    pub fn entry(&self, idx: u64) -> (r: Option<&OplogEntry>)
        ensures
            r is None <==> (idx == 0 || idx > self.entries_spec().len()),
            r matches Some(e) ==> *e == self.entries_spec()[idx - 1],
    {
        if idx == 0 || idx as usize > self.entries.len() || idx > usize::MAX as u64 {
            None
        } else {
            Some(&self.entries[(idx - 1) as usize])
        }
    }

    /// Marks a range of existing entries deleted; their bytes stay.
    pub fn mark_deleted(&mut self, region: OplogRegion) -> (r: bool)
        ensures
            r == (1 <= region.start <= region.end <= old(self).entries_spec().len()),
            final(self).entries_spec() == old(self).entries_spec(),
            r ==> final(self).regions_spec() == old(self).regions_spec().push(region),
            !r ==> final(self).regions_spec() == old(self).regions_spec(),
    {
        if 1 <= region.start && region.start <= region.end && region.end as u128
            <= self.entries.len() as u128 {
            self.deleted_regions.push(region);
            true
        } else {
            false
        }
    }

    /// Whether some deleted region covers the index.
    pub fn is_deleted(&self, idx: u64) -> (r: bool)
        ensures
            r == is_deleted_in(self.regions_spec(), idx as nat),
    {
        let mut j: usize = 0;
        while j < self.deleted_regions.len()
            invariant
                j <= self.deleted_regions@.len(),
                forall|k: int| 0 <= k < j ==> !covers(self.deleted_regions@[k], idx as nat),
            decreases self.deleted_regions.len() - j,
        {
            let r = self.deleted_regions[j];
            if r.start <= idx && idx <= r.end {
                assert(covers(self.deleted_regions@[j as int], idx as nat));
                return true;
            }
            j = j + 1;
        }
        false
    }
}

/// The position of a recovering worker in its oplog: the next index to read.
pub struct ReplayCursor {
    pub position: u64,
}

impl ReplayCursor {
    /// A cursor at the start of the log.
    pub fn new() -> (r: ReplayCursor)
        ensures
            r.position == 1,
    {
        ReplayCursor { position: 1 }
    }

    /// Called when the worker asks for an effect of the given kind: skips deleted
    /// entries, then either finds the effect recorded, finds the log exhausted, or
    /// finds an entry of another kind.
    pub fn next_effect(&mut self, oplog: &Oplog, kind: OplogEntryKind) -> (r: Result<
        ReplayStep,
        UnexpectedOplogEntry,
    >)
        requires
            1 <= old(self).position,
            oplog.entries_spec().len() < u64::MAX,
        ensures
            ({
                let (want, next) = replay_step(
                    oplog.entries_spec(),
                    oplog.regions_spec(),
                    old(self).position as nat,
                    kind,
                );
                r == want && final(self).position == next
            }),
    {
        let len = oplog.last_index();
        let ghost start = self.position as nat;
        let mut p = self.position;
        if p > len {
            return Ok(ReplayStep::Live);
        }
        while p <= len && oplog.is_deleted(p)
            invariant
                len == oplog.entries_spec().len(),
                len < u64::MAX,
                start <= p <= len + 1,
                first_live_from(len as nat, oplog.regions_spec(), start) == first_live_from(
                    len as nat,
                    oplog.regions_spec(),
                    p as nat,
                ),
            decreases len + 1 - p,
        {
            p = p + 1;
        }
        self.position = p;
        if p > len {
            return Ok(ReplayStep::Live);
        }
        let e = oplog.entry(p).unwrap();
        if e.kind == kind {
            self.position = p + 1;
            Ok(ReplayStep::Replayed { index: p })
        } else {
            Err(UnexpectedOplogEntry { expected: kind, got: e.kind })
        }
    }
}

/// Entries once written are never changed: whatever is appended or marked deleted
/// later, each entry keeps its index and its contents.
pub proof fn entries_are_immutable(entries: Seq<OplogEntry>, changes: Seq<OplogChange>, idx: int)
    requires
        0 <= idx < entries.len(),
    ensures
        idx < entries_after(entries, changes).len(),
        entries_after(entries, changes)[idx] == entries[idx],
    decreases changes.len(),
{
    if changes.len() > 0 {
        entries_are_immutable(entries, changes.drop_last(), idx);
    }
}

proof fn first_live_at_least(len: nat, regions: Seq<OplogRegion>, pos: nat)
    ensures
        first_live_from(len, regions, pos) >= pos,
    decreases len + 1 - pos,
{
    if pos <= len && is_deleted_in(regions, pos) {
        first_live_at_least(len, regions, pos + 1);
    }
}

proof fn first_live_on_longer_log(
    short: Seq<OplogEntry>,
    long: Seq<OplogEntry>,
    regions: Seq<OplogRegion>,
    pos: nat,
)
    requires
        short.len() <= long.len(),
        first_live_from(short.len(), regions, pos) <= short.len(),
    ensures
        first_live_from(long.len(), regions, pos) == first_live_from(short.len(), regions, pos),
    decreases short.len() + 1 - pos,
{
    if pos <= short.len() && is_deleted_in(regions, pos) {
        first_live_on_longer_log(short, long, regions, pos + 1);
    }
}

/// Replaying a recovery never depends on what was appended after the part of the log
/// it reads: two recoveries, one from a prefix of the log and one from the whole,
/// observe the same effects as long as the first one never runs out of log.
pub proof fn replay_depends_only_on_prefix(
    prefix: Seq<OplogEntry>,
    log: Seq<OplogEntry>,
    regions: Seq<OplogRegion>,
    pos: nat,
    kinds: Seq<OplogEntryKind>,
)
    requires
        1 <= pos,
        prefix.len() <= log.len(),
        prefix == log.subrange(0, prefix.len() as int),
        forall|j: int|
            0 <= j < replay_run(prefix, regions, pos, kinds).len() ==> replay_run(
                prefix,
                regions,
                pos,
                kinds,
            )[j] != Ok::<ReplayStep, UnexpectedOplogEntry>(ReplayStep::Live),
    ensures
        replay_run(log, regions, pos, kinds) == replay_run(prefix, regions, pos, kinds),
    decreases kinds.len(),
{
    if kinds.len() > 0 {
        let run = replay_run(prefix, regions, pos, kinds);
        assert(run[0] != Ok::<ReplayStep, UnexpectedOplogEntry>(ReplayStep::Live));
        let p = first_live_from(prefix.len(), regions, pos);
        assert(p <= prefix.len());
        first_live_at_least(prefix.len(), regions, pos);
        first_live_on_longer_log(prefix, log, regions, pos);
        assert(prefix[p - 1] == log[p - 1]);
        let (r, next) = replay_step(prefix, regions, pos, kinds[0]);
        if r is Ok {
            let rest = replay_run(prefix, regions, next, kinds.drop_first());
            assert forall|j: int| 0 <= j < rest.len() implies rest[j] != Ok::<
                ReplayStep,
                UnexpectedOplogEntry,
            >(ReplayStep::Live) by {
                assert(rest[j] == run[j + 1]);
            }
            replay_depends_only_on_prefix(prefix, log, regions, next, kinds.drop_first());
        }
    }
}

} // verus!
