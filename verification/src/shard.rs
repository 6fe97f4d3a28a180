//! One shard connection's lifecycle state machine: `Connecting`, `Ready`,
//! `Reconnecting` and the terminal `Closed` state, with capped exponential
//! backoff on consecutive failures.

use vstd::prelude::*;
use crate::backoff::{
    spec_backoff_delay, spec_next_level, backoff_delay, MAX_BACKOFF_LEVEL,
};

verus! {

/// Lifecycle state of one shard connection.
#[derive(Clone, Copy, Debug, PartialEq, Eq, Structural)]
pub enum ConnectionState {
    /// A connection attempt is under way.
    Connecting,
    /// The handshake completed and the stream is live.
    Ready,
    /// The stream failed; the shard is waiting out a backoff delay.
    Reconnecting,
    /// Shut down on request; terminal.
    Closed,
}

/// Lifecycle event observed by one shard connection.
#[derive(Clone, Copy, Debug, PartialEq, Eq, Structural)]
pub enum ShardEvent {
    /// The handshake succeeded and the platform acknowledged the shard.
    HandshakeComplete,
    /// The stream erred, closed unexpectedly, or missed a heartbeat.
    StreamError,
    /// The backoff delay has elapsed; a new attempt may start.
    BackoffElapsed,
    /// The connection remained open past the stabilization window.
    Stabilized,
    /// An explicit shutdown was requested.
    ShutdownRequested,
}

/// What the supervising task must do after a step of the state machine.
#[derive(Clone, Copy, Debug, PartialEq, Eq, Structural)]
pub enum ShardAction {
    /// Nothing to do.
    NoEffect,
    /// Wait the given number of abstract time units, then feed
    /// `BackoffElapsed` back into the machine.
    Delay { units: u64 },
    /// Open a fresh stream connection for this shard.
    OpenConnection,
    /// Release the shard's network resource.
    CloseConnection,
}

/// One logical connection to the platform, identified by its shard id.
#[derive(Clone, Copy, Debug, PartialEq, Eq, Structural)]
pub struct ShardConnection {
    /// Identity of this shard within the fleet; immutable once assigned.
    pub id: u64,
    /// Current lifecycle state.
    pub state: ConnectionState,
    /// Count of consecutive failed attempts, capped at `MAX_BACKOFF_LEVEL`.
    pub backoff_level: u32,
}

impl ShardConnection {
    /// The backoff level stays within its cap.
    pub open spec fn wf(self) -> bool {
        self.backoff_level <= MAX_BACKOFF_LEVEL
    }

    /// The state a freshly created shard starts in.
    pub open spec fn spec_new(id: u64) -> ShardConnection {
        ShardConnection { id, state: ConnectionState::Connecting, backoff_level: 0 }
    }

    /// Creates a shard connection record for the given id, about to make its
    /// first connection attempt.
    pub fn new(id: u64) -> (s: ShardConnection)
        ensures
            s == ShardConnection::spec_new(id),
            s.wf(),
    {
        ShardConnection { id, state: ConnectionState::Connecting, backoff_level: 0 }
    }

    /// Applies one lifecycle event to the shard's state machine and returns
    /// the action the supervising task must perform.
    pub fn step(&mut self, event: ShardEvent) -> (action: ShardAction)
        requires
            old(self).wf(),
        ensures
            *final(self) == spec_step(*old(self), event).0,
            action == spec_step(*old(self), event).1,
            final(self).wf(),
            final(self).id == old(self).id,
    {
        match event {
            ShardEvent::ShutdownRequested => {
                let was_closed = matches!(self.state, ConnectionState::Closed);
                self.state = ConnectionState::Closed;
                if was_closed {
                    ShardAction::NoEffect
                } else {
                    ShardAction::CloseConnection
                }
            },
            ShardEvent::HandshakeComplete => {
                if matches!(self.state, ConnectionState::Connecting) {
                    self.state = ConnectionState::Ready;
                }
                ShardAction::NoEffect
            },
            ShardEvent::StreamError => {
                match self.state {
                    ConnectionState::Connecting | ConnectionState::Ready => {
                        let delay = backoff_delay(self.backoff_level);
                        self.state = ConnectionState::Reconnecting;
                        if self.backoff_level < MAX_BACKOFF_LEVEL {
                            self.backoff_level = self.backoff_level + 1;
                        }
                        ShardAction::Delay { units: delay }
                    },
                    _ => ShardAction::NoEffect,
                }
            },
            ShardEvent::BackoffElapsed => {
                if matches!(self.state, ConnectionState::Reconnecting) {
                    self.state = ConnectionState::Connecting;
                    ShardAction::OpenConnection
                } else {
                    ShardAction::NoEffect
                }
            },
            ShardEvent::Stabilized => {
                if matches!(self.state, ConnectionState::Ready) {
                    self.backoff_level = 0;
                }
                ShardAction::NoEffect
            },
        }
    }
}

/// The shard state machine as a mathematical function: the next shard state
/// and the action the supervising task must perform.
pub open spec fn spec_step(s: ShardConnection, event: ShardEvent) -> (ShardConnection, ShardAction) {
    match event {
        ShardEvent::ShutdownRequested => (
            ShardConnection { state: ConnectionState::Closed, ..s },
            if s.state is Closed {
                ShardAction::NoEffect
            } else {
                ShardAction::CloseConnection
            },
        ),
        ShardEvent::HandshakeComplete => {
            if s.state is Connecting {
                (ShardConnection { state: ConnectionState::Ready, ..s }, ShardAction::NoEffect)
            } else {
                (s, ShardAction::NoEffect)
            }
        },
        ShardEvent::StreamError => {
            if s.state is Connecting || s.state is Ready {
                (
                    ShardConnection {
                        state: ConnectionState::Reconnecting,
                        backoff_level: spec_next_level(s.backoff_level),
                        ..s
                    },
                    ShardAction::Delay { units: spec_backoff_delay(s.backoff_level) as u64 },
                )
            } else {
                (s, ShardAction::NoEffect)
            }
        },
        ShardEvent::BackoffElapsed => {
            if s.state is Reconnecting {
                (ShardConnection { state: ConnectionState::Connecting, ..s }, ShardAction::OpenConnection)
            } else {
                (s, ShardAction::NoEffect)
            }
        },
        ShardEvent::Stabilized => {
            if s.state is Ready {
                (ShardConnection { backoff_level: 0, ..s }, ShardAction::NoEffect)
            } else {
                (s, ShardAction::NoEffect)
            }
        },
    }
}

/// The shard state after a run of lifecycle events, applied in order.
pub open spec fn spec_run_shard(s: ShardConnection, events: Seq<ShardEvent>) -> ShardConnection
    decreases events.len(),
{
    if events.len() == 0 {
        s
    } else {
        spec_step(spec_run_shard(s, events.drop_last()), events.last()).0
    }
}

/// Law: `Closed` is terminal. A closed shard stays closed under every event,
/// and the step asks for no further work, so no event of a closed shard is
/// ever forwarded.
pub proof fn lemma_closed_is_terminal(s: ShardConnection, event: ShardEvent)
    requires
        s.state is Closed,
    ensures
        spec_step(s, event).0.state is Closed,
        spec_step(s, event).1 == ShardAction::NoEffect,
{
}

/// Law: a fresh shard whose first connection attempt succeeds is `Ready`.
pub proof fn lemma_fresh_shard_reaches_ready(id: u64)
    ensures
        spec_step(ShardConnection::spec_new(id), ShardEvent::HandshakeComplete).0.state
            is Ready,
{
}

/// Law: no event but `Stabilized` (the reset on a stable `Ready` connection)
/// ever lowers the backoff level, so the delays a shard waits over any run of
/// transient failures are non-decreasing.
pub proof fn lemma_level_nondecreasing(s: ShardConnection, event: ShardEvent)
    requires
        s.wf(),
        !(event is Stabilized),
    ensures
        spec_step(s, event).0.backoff_level >= s.backoff_level,
        spec_step(s, event).0.wf(),
{
}

/// Law: the moment a `Ready` connection stabilizes, the backoff level resets,
/// so the next failure's delay is back at the base value.
pub proof fn lemma_stabilize_resets_backoff(s: ShardConnection)
    requires
        s.state is Ready,
    ensures
        spec_step(s, ShardEvent::Stabilized).0.backoff_level == 0,
        spec_backoff_delay(spec_step(s, ShardEvent::Stabilized).0.backoff_level)
            == crate::backoff::BACKOFF_BASE_DELAY,
{
}

/// Law: over any run of events that contains no `Stabilized`, the backoff
/// level — and with it the delay of the next retry — never decreases.
pub proof fn lemma_run_level_nondecreasing(s: ShardConnection, events: Seq<ShardEvent>)
    requires
        s.wf(),
        forall|i: int| 0 <= i < events.len() ==> !(#[trigger] events[i] is Stabilized),
    ensures
        spec_run_shard(s, events).wf(),
        spec_run_shard(s, events).backoff_level >= s.backoff_level,
        spec_backoff_delay(spec_run_shard(s, events).backoff_level)
            >= spec_backoff_delay(s.backoff_level),
    decreases events.len(),
{
    if events.len() > 0 {
        lemma_run_level_nondecreasing(s, events.drop_last());
        lemma_level_nondecreasing(spec_run_shard(s, events.drop_last()), events.last());
    }
    crate::backoff::lemma_backoff_delay_nondecreasing(
        s.backoff_level,
        spec_run_shard(s, events).backoff_level,
    );
}

} // verus!
