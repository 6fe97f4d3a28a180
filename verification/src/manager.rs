//! The shard manager: creates exactly the resolved number of shard
//! connections, routes lifecycle events to each shard's own state machine,
//! reports aggregate health, and on shutdown drives every shard to `Closed`.

use vstd::prelude::*;
use crate::shard::{ConnectionState, ShardAction, ShardConnection, ShardEvent, spec_step};

verus! {

/// How many shards in the sequence are in the given state.
pub open spec fn spec_count_in_state(s: Seq<ShardConnection>, state: ConnectionState) -> nat
    decreases s.len(),
{
    if s.len() == 0 {
        0
    } else {
        spec_count_in_state(s.drop_last(), state) + if s.last().state == state {
            1nat
        } else {
            0nat
        }
    }
}

/// Law: if every shard of a sequence is in a state, the count for that state
/// is the whole sequence.
pub proof fn lemma_count_all_in_state(s: Seq<ShardConnection>, state: ConnectionState)
    requires
        forall|i: int| 0 <= i < s.len() ==> (#[trigger] s[i]).state == state,
    ensures
        spec_count_in_state(s, state) == s.len(),
    decreases s.len(),
{
    if s.len() > 0 {
        lemma_count_all_in_state(s.drop_last(), state);
    }
}

/// Law: in a freshly started fleet, any shard whose first connection attempt
/// succeeds — a simulator that always succeeds gives this to every shard —
/// moves to `Ready`.
pub proof fn lemma_fresh_fleet_reaches_ready(m: ShardManager)
    requires
        forall|i: int|
            0 <= i < m.shards@.len() ==> (#[trigger] m.shards@[i]).state
                is Connecting,
    ensures
        forall|i: int|
            0 <= i < m.shards@.len() ==> spec_step(
                #[trigger] m.shards@[i],
                ShardEvent::HandshakeComplete,
            ).0.state is Ready,
{
}

/// Supervises the fleet of shard connections for one process.
pub struct ShardManager {
    /// The shard connections, indexed by their shard id.
    pub shards: Vec<ShardConnection>,
}

impl ShardManager {
    /// Every shard sits at the index equal to its id, keeps its backoff level
    /// within the cap, and the fleet is non-empty.
    pub open spec fn wf(self) -> bool {
        &&& self.shards@.len() >= 1
        &&& forall|i: int|
            0 <= i < self.shards@.len() ==> (#[trigger] self.shards@[i]).id == i
        &&& forall|i: int| 0 <= i < self.shards@.len() ==> (#[trigger] self.shards@[i]).wf()
    }

    /// Starts the fleet: creates exactly `shard_count` shard connections,
    /// shard `i` carrying id `i`, each about to make its first connection
    /// attempt with its backoff at the base level.
    pub fn start(shard_count: u64) -> (m: ShardManager)
        requires
            1 <= shard_count,
            shard_count <= usize::MAX,
        ensures
            m.wf(),
            m.shards@.len() == shard_count,
            forall|i: int|
                0 <= i < shard_count ==> #[trigger] m.shards@[i] == ShardConnection::spec_new(
                    i as u64,
                ),
    {
        let count: usize = shard_count as usize;
        let mut shards: Vec<ShardConnection> = Vec::new();
        let mut i: usize = 0;
        while i < count
            invariant
                i <= count,
                count == shard_count,
                shard_count <= usize::MAX,
                shards@.len() == i,
                forall|j: int|
                    0 <= j < i ==> #[trigger] shards@[j] == ShardConnection::spec_new(j as u64),
            decreases count - i,
        {
            shards.push(ShardConnection::new(i as u64));
            i = i + 1;
        }
        ShardManager { shards }
    }

    /// Routes one lifecycle event to the shard with the given id and returns
    /// the action its supervising task must perform; every other shard is
    /// untouched.
    pub fn handle_shard_event(&mut self, shard: usize, event: ShardEvent) -> (action: ShardAction)
        requires
            old(self).wf(),
            shard < old(self).shards@.len(),
        ensures
            final(self).wf(),
            final(self).shards@.len() == old(self).shards@.len(),
            final(self).shards@[shard as int] == spec_step(
                old(self).shards@[shard as int],
                event,
            ).0,
            action == spec_step(old(self).shards@[shard as int], event).1,
            forall|i: int|
                0 <= i < old(self).shards@.len() && i != shard ==> final(self).shards@[i]
                    == old(self).shards@[i],
    {
        let s = &mut self.shards[shard];
        let action = s.step(event);
        action
    }

    /// Signals every shard to transition to `Closed`; when this returns, no
    /// shard remains in any state other than `Closed`, and ids and backoff
    /// levels are untouched.
    pub fn shutdown(&mut self)
        requires
            old(self).wf(),
        ensures
            final(self).wf(),
            final(self).shards@.len() == old(self).shards@.len(),
            forall|i: int|
                0 <= i < final(self).shards@.len() ==> (#[trigger] final(self).shards@[i]).state
                    is Closed,
            forall|i: int|
                0 <= i < final(self).shards@.len() ==> (#[trigger] final(self).shards@[i]).id
                    == old(self).shards@[i].id,
            forall|i: int|
                0 <= i < final(self).shards@.len()
                    ==> (#[trigger] final(self).shards@[i]).backoff_level
                    == old(self).shards@[i].backoff_level,
    {
        let mut i: usize = 0;
        let n = self.shards.len();
        while i < n
            invariant
                i <= n,
                n == self.shards@.len(),
                self.wf(),
                self.shards@.len() == old(self).shards@.len(),
                forall|j: int|
                    0 <= j < i ==> (#[trigger] self.shards@[j]).state is Closed,
                forall|j: int|
                    0 <= j < self.shards@.len() ==> (#[trigger] self.shards@[j]).id == old(
                        self,
                    ).shards@[j].id,
                forall|j: int|
                    0 <= j < self.shards@.len() ==> (#[trigger] self.shards@[j]).backoff_level
                        == old(self).shards@[j].backoff_level,
            decreases n - i,
        {
            let s = &mut self.shards[i];
            s.step(ShardEvent::ShutdownRequested);
            i = i + 1;
        }
    }

    /// Aggregate health for observability: how many shards are currently
    /// `Ready`.
    pub fn ready_count(&self) -> (n: usize)
        ensures
            n == spec_count_in_state(self.shards@, ConnectionState::Ready),
    {
        let mut n: usize = 0;
        let mut i: usize = 0;
        let len = self.shards.len();
        while i < len
            invariant
                i <= len,
                len == self.shards@.len(),
                n <= i,
                n == spec_count_in_state(
                    self.shards@.take(i as int),
                    ConnectionState::Ready,
                ),
            decreases len - i,
        {
            proof {
                assert(self.shards@.take(i + 1).drop_last() =~= self.shards@.take(i as int));
                assert(self.shards@.take(i + 1).last() == self.shards@[i as int]);
            }
            if matches!(self.shards[i].state, ConnectionState::Ready) {
                n = n + 1;
            }
            i = i + 1;
        }
        proof {
            assert(self.shards@.take(len as int) =~= self.shards@);
        }
        n
    }
}

} // verus!
