use shardfleet::backoff::{backoff_delay, BACKOFF_BASE_DELAY, MAX_BACKOFF_DELAY};
use shardfleet::manager::ShardManager;
use shardfleet::shard::{ConnectionState, ShardAction, ShardConnection, ShardEvent};

#[test]
fn backoff_delay_doubles_until_capped() {
    assert_eq!(backoff_delay(0), BACKOFF_BASE_DELAY);
    assert_eq!(backoff_delay(1), 2);
    assert_eq!(backoff_delay(2), 4);
    assert_eq!(backoff_delay(3), 8);
    assert_eq!(backoff_delay(6), MAX_BACKOFF_DELAY);
    assert_eq!(backoff_delay(7), MAX_BACKOFF_DELAY);
    assert_eq!(backoff_delay(u32::MAX), MAX_BACKOFF_DELAY);
}

#[test]
fn backoff_sequence_nondecreasing_until_capped_and_resets() {
    let mut shard = ShardConnection::new(9);
    let mut last_delay = 0u64;
    // Repeated transient failures: each observed delay is at least the one
    // before, and none exceeds the cap.
    for _ in 0..12 {
        let action = shard.step(ShardEvent::StreamError);
        let units = match action {
            ShardAction::Delay { units } => units,
            other => panic!("expected a delay, got {:?}", other),
        };
        assert!(units >= last_delay);
        assert!(units <= MAX_BACKOFF_DELAY);
        last_delay = units;
        assert_eq!(shard.step(ShardEvent::BackoffElapsed), ShardAction::OpenConnection);
    }
    assert_eq!(last_delay, MAX_BACKOFF_DELAY);
    // The shard connects, stabilizes, and the next failure is back at the
    // base delay.
    shard.step(ShardEvent::HandshakeComplete);
    assert_eq!(shard.state, ConnectionState::Ready);
    shard.step(ShardEvent::Stabilized);
    let action = shard.step(ShardEvent::StreamError);
    assert_eq!(action, ShardAction::Delay { units: BACKOFF_BASE_DELAY });
}

#[test]
fn start_creates_one_shard_per_id() {
    for n in [1u64, 2, 5, 16] {
        let manager = ShardManager::start(n);
        assert_eq!(manager.shards.len() as u64, n);
        for (i, shard) in manager.shards.iter().enumerate() {
            assert_eq!(shard.id, i as u64);
            assert_eq!(shard.state, ConnectionState::Connecting);
            assert_eq!(shard.backoff_level, 0);
        }
    }
}

#[test]
fn every_shard_reaches_ready_when_connections_succeed() {
    let mut manager = ShardManager::start(5);
    assert_eq!(manager.ready_count(), 0);
    for i in 0..5 {
        manager.handle_shard_event(i, ShardEvent::HandshakeComplete);
    }
    assert_eq!(manager.ready_count(), 5);
    for shard in &manager.shards {
        assert_eq!(shard.state, ConnectionState::Ready);
    }
}

#[test]
fn shard_failure_and_recovery_cycle() {
    let mut manager = ShardManager::start(2);
    manager.handle_shard_event(0, ShardEvent::HandshakeComplete);
    manager.handle_shard_event(1, ShardEvent::HandshakeComplete);
    assert_eq!(manager.ready_count(), 2);
    // Shard 1 fails; only shard 1 leaves Ready.
    let action = manager.handle_shard_event(1, ShardEvent::StreamError);
    assert_eq!(action, ShardAction::Delay { units: BACKOFF_BASE_DELAY });
    assert_eq!(manager.shards[0].state, ConnectionState::Ready);
    assert_eq!(manager.shards[1].state, ConnectionState::Reconnecting);
    assert_eq!(manager.ready_count(), 1);
    // It retries and recovers.
    assert_eq!(
        manager.handle_shard_event(1, ShardEvent::BackoffElapsed),
        ShardAction::OpenConnection
    );
    manager.handle_shard_event(1, ShardEvent::HandshakeComplete);
    assert_eq!(manager.ready_count(), 2);
}

#[test]
fn shutdown_closes_every_shard_and_is_terminal() {
    let mut manager = ShardManager::start(4);
    manager.handle_shard_event(0, ShardEvent::HandshakeComplete);
    manager.handle_shard_event(2, ShardEvent::StreamError);
    manager.shutdown();
    for shard in &manager.shards {
        assert_eq!(shard.state, ConnectionState::Closed);
    }
    // No event moves a closed shard, and no further work is ever asked for.
    for i in 0..4 {
        for event in [
            ShardEvent::HandshakeComplete,
            ShardEvent::StreamError,
            ShardEvent::BackoffElapsed,
            ShardEvent::Stabilized,
            ShardEvent::ShutdownRequested,
        ] {
            assert_eq!(manager.handle_shard_event(i, event), ShardAction::NoEffect);
            assert_eq!(manager.shards[i].state, ConnectionState::Closed);
        }
    }
}

#[test]
fn closing_a_live_shard_releases_its_connection() {
    let mut shard = ShardConnection::new(0);
    shard.step(ShardEvent::HandshakeComplete);
    assert_eq!(shard.step(ShardEvent::ShutdownRequested), ShardAction::CloseConnection);
    assert_eq!(shard.state, ConnectionState::Closed);
    // A second shutdown request finds nothing left to release.
    assert_eq!(shard.step(ShardEvent::ShutdownRequested), ShardAction::NoEffect);
}
