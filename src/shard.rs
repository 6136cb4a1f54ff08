use vstd::prelude::*;
use vstd::string::*;

use crate::error::{WorkerError, WorkerExecutionError};
use crate::ids::ShardId;

verus! {

/// The shard that a worker with the given id hash belongs to.
pub open spec fn shard_of_spec(worker_hash: u64, shard_count: u64) -> u64
    recommends
        shard_count > 0,
{
    worker_hash % shard_count
}

/// Maps a worker's id hash onto one of `shard_count` shards.
pub fn shard_of(worker_hash: u64, shard_count: u64) -> (r: ShardId)
    requires
        shard_count > 0,
    ensures
        r.value == shard_of_spec(worker_hash, shard_count),
        r.value < shard_count,
{
    ShardId { value: worker_hash % shard_count }
}

/// The owners of the shards after the nodes' initial assignment: shard `i` goes to
/// node `i mod n`.
pub open spec fn round_robin(shard_count: nat, nodes: Seq<u64>) -> Seq<u64> {
    Seq::new(shard_count, |i: int| nodes[i % (nodes.len() as int)])
}

/// The owners after the shards of `dead` move to the survivors, in turn, in shard
/// order; every other shard stays where it is.
pub open spec fn rebalanced(owners: Seq<u64>, dead: u64, survivors: Seq<u64>) -> Seq<u64>
    decreases owners.len(),
{
    if owners.len() == 0 {
        Seq::empty()
    } else {
        let front = rebalanced(owners.drop_last(), dead, survivors);
        if owners.last() == dead {
            front.push(survivors[moved_count(owners.drop_last(), dead) % (survivors.len() as int)])
        } else {
            front.push(owners.last())
        }
    }
}

/// How many of these shards `dead` owns.
pub open spec fn moved_count(owners: Seq<u64>, dead: u64) -> int
    decreases owners.len(),
{
    if owners.len() == 0 {
        0
    } else {
        moved_count(owners.drop_last(), dead) + if owners.last() == dead {
            1int
        } else {
            0int
        }
    }
}

/// Whether a node acknowledges writes for a shard under an assignment.
pub open spec fn acknowledges(owners: Seq<u64>, node: u64, shard: int) -> bool {
    0 <= shard < owners.len() && owners[shard] == node
}

/// The assignment of shards to executor nodes.
pub struct ShardMap {
    owners: Vec<u64>,
}

impl View for ShardMap {
    type V = Seq<u64>;

    closed spec fn view(&self) -> Seq<u64> {
        self.owners@
    }
}

proof fn lemma_moved_count_bounds(owners: Seq<u64>, dead: u64)
    ensures
        0 <= moved_count(owners, dead) <= owners.len(),
    decreases owners.len(),
{
    if owners.len() > 0 {
        lemma_moved_count_bounds(owners.drop_last(), dead);
    }
}

impl ShardMap {
    /// Assigns `shard_count` shards to the nodes in turn.
    pub fn new(shard_count: u64, nodes: &Vec<u64>) -> (r: ShardMap)
        requires
            nodes@.len() > 0,
        ensures
            r@ == round_robin(shard_count as nat, nodes@),
    {
        let mut owners: Vec<u64> = Vec::new();
        let mut i: u64 = 0;
        while i < shard_count
            invariant
                nodes@.len() > 0,
                i <= shard_count,
                owners@ == round_robin(i as nat, nodes@),
            decreases shard_count - i,
        {
            let k = (i % nodes.len() as u64) as usize;
            proof {
                assert((i % nodes@.len() as u64) as int == (i as int) % (nodes@.len() as int))
                    by (nonlinear_arith)
                    requires
                        nodes@.len() > 0,
                        nodes@.len() <= u64::MAX,
                ;
            }
            owners.push(nodes[k]);
            assert(owners@ =~= round_robin(i as nat + 1, nodes@));
            i = i + 1;
        }
        ShardMap { owners }
    }

    /// The number of shards.
    pub fn shard_count(&self) -> (r: usize)
        ensures
            r == self@.len(),
    {
        self.owners.len()
    }

    /// The node that owns a shard, if the shard exists.
    pub fn owner(&self, shard: ShardId) -> (r: Option<u64>)
        ensures
            r is Some <==> shard.value < self@.len(),
            r matches Some(n) ==> n == self@[shard.value as int],
    {
        if shard.value as u128 >= self.owners.len() as u128 {
            None
        } else {
            Some(self.owners[shard.value as usize])
        }
    }

    /// Moves every shard of a node that was lost to the survivors, in turn; no other
    /// shard moves.
    pub fn reassign(&mut self, dead: u64, survivors: &Vec<u64>)
        requires
            survivors@.len() > 0,
        ensures
            final(self)@ == rebalanced(old(self)@, dead, survivors@),
    {
        let ghost before = self@;
        let mut out: Vec<u64> = Vec::new();
        let mut moved: usize = 0;
        let mut i: usize = 0;
        while i < self.owners.len()
            invariant
                survivors@.len() > 0,
                self@ == before,
                i <= before.len(),
                moved == moved_count(before.subrange(0, i as int), dead),
                out@ == rebalanced(before.subrange(0, i as int), dead, survivors@),
            decreases self.owners.len() - i,
        {
            let ghost pre = before.subrange(0, i as int + 1);
            assert(pre.drop_last() =~= before.subrange(0, i as int));
            proof {
                lemma_moved_count_bounds(before.subrange(0, i as int), dead);
            }
            let o = self.owners[i];
            if o == dead {
                out.push(survivors[moved % survivors.len()]);
                moved = moved + 1;
            } else {
                out.push(o);
            }
            i = i + 1;
        }
        assert(before.subrange(0, i as int) =~= before);
        self.owners = out;
    }
}

/// At any moment at most one node acknowledges writes for a shard, and the
/// reassignment after a node is lost keeps it so: every shard that had an owner
/// still has exactly one, and none of them is the lost node.
pub proof fn one_owner_per_shard(owners: Seq<u64>, dead: u64, survivors: Seq<u64>, shard: int, a: u64, b: u64)
    requires
        survivors.len() > 0,
        !survivors.contains(dead),
    ensures
        acknowledges(owners, a, shard) && acknowledges(owners, b, shard) ==> a == b,
        rebalanced(owners, dead, survivors).len() == owners.len(),
        0 <= shard < owners.len() ==> rebalanced(owners, dead, survivors)[shard] != dead,
        0 <= shard < owners.len() && owners[shard] != dead ==> rebalanced(owners, dead, survivors)[shard]
            == owners[shard],
        0 <= shard < owners.len() && owners[shard] == dead ==> survivors.contains(
            rebalanced(owners, dead, survivors)[shard],
        ),
    decreases owners.len(),
{
    if owners.len() > 0 {
        let front = owners.drop_last();
        one_owner_per_shard(front, dead, survivors, shard, a, b);
        lemma_moved_count_bounds(front, dead);
        let k = moved_count(front, dead) % (survivors.len() as int);
        assert(0 <= k < survivors.len());
        assert(survivors.contains(survivors[k]));
        if shard < owners.len() - 1 && 0 <= shard {
            assert(front[shard] == owners[shard]);
        }
    }
}

/// What the router does after a forwarded call came back.
#[derive(Clone, Copy, Debug, PartialEq, Eq, Structural)]
pub enum RouteAction {
    /// The call's answer stands; hand it to the caller.
    Done,
    /// The node no longer owns the shard: refresh the shard map and call again.
    RefreshAndRetry,
    /// The node no longer owns the shard and the attempts are used up.
    GiveUp,
}

/// Whether an error says that the node does not own the worker's shard.
pub open spec fn is_invalid_shard(e: WorkerError) -> bool {
    e matches WorkerError::InternalError {
        error: Some(WorkerExecutionError::InvalidShardId { .. }),
    }
}

/// The router's decision on the answer to the `attempt`-th call.
pub open spec fn route_decision_spec(
    attempt: u32,
    max_attempts: u32,
    answer: Result<(), WorkerError>,
) -> RouteAction {
    match answer {
        Err(e) => if is_invalid_shard(e) {
            if attempt < max_attempts {
                RouteAction::RefreshAndRetry
            } else {
                RouteAction::GiveUp
            }
        } else {
            RouteAction::Done
        },
        Ok(_) => RouteAction::Done,
    }
}

/// Decides what to do with the answer to the `attempt`-th call (counted from 1):
/// only a shard error leads to another call, and at most `max_attempts` are made.
pub fn route_decision(attempt: u32, max_attempts: u32, answer: &Result<(), WorkerError>) -> (r: RouteAction)
    ensures
        r == route_decision_spec(attempt, max_attempts, *answer),
{
    match answer {
        Err(WorkerError::InternalError { error: Some(WorkerExecutionError::InvalidShardId { .. }) }) => {
            if attempt < max_attempts {
                RouteAction::RefreshAndRetry
            } else {
                RouteAction::GiveUp
            }
        },
        _ => RouteAction::Done,
    }
}

/// The message of the error that a caller sees once routing gave up.
pub open spec fn routing_exhausted_message() -> Seq<char> {
    "Shard ownership did not settle within the retry limit"@
}

/// The error that the router hands to its caller in place of a shard error once
/// the attempts are used up: a runtime error, never the shard error itself.
pub fn routing_exhausted_error() -> (r: WorkerError)
    ensures
        !is_invalid_shard(r),
        r matches WorkerError::InternalError {
            error: Some(WorkerExecutionError::RuntimeError { details }),
        } && details@ == routing_exhausted_message(),
{
    WorkerError::InternalError {
        error: Some(
            WorkerExecutionError::RuntimeError {
                details: String::from_str("Shard ownership did not settle within the retry limit"),
            },
        ),
    }
}

/// What the router answers its caller for the answer to the `attempt`-th call:
/// `None` to call again after refreshing the shard map, else the answer to hand
/// on. A shard error never reaches the caller.
pub fn routed_answer(attempt: u32, max_attempts: u32, answer: Result<(), WorkerError>) -> (r: Option<
    Result<(), WorkerError>,
>)
    ensures
        route_decision_spec(attempt, max_attempts, answer) == RouteAction::RefreshAndRetry
            <==> r is None,
        route_decision_spec(attempt, max_attempts, answer) == RouteAction::Done ==> r == Some(
            answer,
        ),
        route_decision_spec(attempt, max_attempts, answer) == RouteAction::GiveUp ==> (r matches Some(
            Err(e),
        ) && !is_invalid_shard(e)),
        r matches Some(Err(e)) ==> !is_invalid_shard(e),
{
    match route_decision(attempt, max_attempts, &answer) {
        RouteAction::RefreshAndRetry => None,
        RouteAction::Done => Some(answer),
        RouteAction::GiveUp => Some(Err(routing_exhausted_error())),
    }
}

/// Where the ownership of one shard stands while it may be moving between nodes.
#[derive(Clone, Copy, Debug, PartialEq, Eq, Structural)]
pub enum ShardPhase {
    /// The node owns the shard and acknowledges its writes.
    Owned { node: u64 },
    /// The shard moves from one node to another: the old owner rejects writes while
    /// it drains, and the new owner does not accept them yet.
    Draining { from: u64, to: u64 },
}

/// Whether a node acknowledges writes for the shard in this phase.
pub open spec fn phase_acknowledges(p: ShardPhase, node: u64) -> bool {
    p matches ShardPhase::Owned { node: n } && n == node
}

/// The phase after a handoff to `to` begins; only an owned shard starts one.
pub open spec fn begun(p: ShardPhase, to: u64) -> ShardPhase {
    match p {
        ShardPhase::Owned { node } => ShardPhase::Draining { from: node, to },
        _ => p,
    }
}

/// The phase after `node` reports that it has drained; only the old owner of a
/// draining shard can end the drain, and then the new owner takes over.
pub open spec fn drained(p: ShardPhase, node: u64) -> ShardPhase {
    match p {
        ShardPhase::Draining { from, to } => if from == node {
            ShardPhase::Owned { node: to }
        } else {
            p
        },
        _ => p,
    }
}

impl ShardPhase {
    /// Whether `node` acknowledges writes for the shard now.
    pub fn acknowledges(self, node: u64) -> (r: bool)
        ensures
            r == phase_acknowledges(self, node),
    {
        match self {
            ShardPhase::Owned { node: n } => n == node,
            ShardPhase::Draining { .. } => false,
        }
    }

    /// Starts handing the shard to `to`; the owner stops acknowledging at once.
    pub fn begin_handoff(self, to: u64) -> (r: ShardPhase)
        ensures
            r == begun(self, to),
    {
        match self {
            ShardPhase::Owned { node } => ShardPhase::Draining { from: node, to },
            _ => self,
        }
    }

    /// Records that `node` has drained the shard.
    pub fn drain_done(self, node: u64) -> (r: ShardPhase)
        ensures
            r == drained(self, node),
    {
        match self {
            ShardPhase::Draining { from, to } => if from == node {
                ShardPhase::Owned { node: to }
            } else {
                self
            },
            _ => self,
        }
    }
}

/// During a handoff no two nodes acknowledge writes for the shard: in every phase
/// at most one node does; while the shard drains neither the old nor the new owner
/// does; and the new owner acknowledges only once the old owner has drained.
pub proof fn handoff_keeps_one_writer(p: ShardPhase, to: u64, a: u64, b: u64, n: u64)
    ensures
        phase_acknowledges(p, a) && phase_acknowledges(p, b) ==> a == b,
        p is Owned ==> !phase_acknowledges(begun(p, to), n),
        p is Draining && phase_acknowledges(drained(p, n), to) ==> (p matches ShardPhase::Draining {
            from,
            to: t,
        } && from == n && t == to),
{
}

} // verus!
