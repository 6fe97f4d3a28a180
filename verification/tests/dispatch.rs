use shardfleet::cache::Identity;
use shardfleet::dispatcher::{DispatchOutcome, Dispatcher, Event};

fn ready(name: &str, snapshot: &[u64]) -> Event {
    Event::Ready {
        identity: Identity { name: name.to_string() },
        guild_snapshot: snapshot.to_vec(),
    }
}

fn message(author: &str, content: &str) -> Event {
    Event::Message { author: author.to_string(), content: content.to_string() }
}

#[test]
fn ready_records_identity_and_guilds() {
    let mut d = Dispatcher::new();
    let outcome = d.dispatch(&ready("bot", &[10, 20]), 0);
    assert_eq!(
        outcome,
        DispatchOutcome::ReadyAnnounced {
            user_name: "bot".to_string(),
            guild_count: 2,
            start_reporter: true,
        }
    );
    assert_eq!(d.cache.current_user, Some(Identity { name: "bot".to_string() }));
    assert_eq!(d.reporter_tick(), 2);
}

#[test]
fn second_ready_on_shard_zero_starts_no_second_reporter() {
    let mut d = Dispatcher::new();
    let first = d.dispatch(&ready("bot", &[1]), 0);
    assert!(matches!(first, DispatchOutcome::ReadyAnnounced { start_reporter: true, .. }));
    // A reconnect delivers Ready again on shard 0.
    let second = d.dispatch(&ready("bot", &[1, 2]), 0);
    assert!(matches!(second, DispatchOutcome::ReadyAnnounced { start_reporter: false, .. }));
}

#[test]
fn ready_on_other_shards_never_starts_the_reporter() {
    let mut d = Dispatcher::new();
    let outcome = d.dispatch(&ready("bot", &[]), 3);
    assert!(matches!(outcome, DispatchOutcome::ReadyAnnounced { start_reporter: false, .. }));
    assert!(!d.reporter_started);
    let outcome = d.dispatch(&ready("bot", &[]), 0);
    assert!(matches!(outcome, DispatchOutcome::ReadyAnnounced { start_reporter: true, .. }));
    assert!(d.reporter_started);
}

#[test]
fn guild_set_only_grows_and_counts_distinct_ids() {
    let mut d = Dispatcher::new();
    assert_eq!(d.reporter_tick(), 0);
    let batch = vec![
        Event::GuildCreate { guild_id: 1 },
        Event::GuildCreate { guild_id: 2 },
        Event::GuildCreate { guild_id: 1 },
        ready("bot", &[2, 3]),
        Event::Other,
    ];
    let mut seen: usize = 0;
    for event in &batch {
        d.dispatch(event, 0);
        let now = d.reporter_tick();
        assert!(now >= seen);
        seen = now;
    }
    // Distinct ids seen: 1, 2, 3.
    assert_eq!(d.reporter_tick(), 3);
}

#[test]
fn outcomes_follow_one_shards_arrival_order() {
    let mut d = Dispatcher::new();
    let events = vec![message("a", "first"), message("b", "second"), message("c", "third")];
    let outcomes = d.dispatch_all(&events, 4);
    assert_eq!(
        outcomes,
        vec![
            DispatchOutcome::HandlerInvoked { author: "a".to_string(), content: "first".to_string() },
            DispatchOutcome::HandlerInvoked { author: "b".to_string(), content: "second".to_string() },
            DispatchOutcome::HandlerInvoked { author: "c".to_string(), content: "third".to_string() },
        ]
    );
}

#[test]
fn interleaved_shards_each_keep_their_own_order() {
    let mut d = Dispatcher::new();
    let mut observed = Vec::new();
    // Two shards' events interleave arbitrarily; each shard's events stay in
    // its own order, and no claim is made across shards.
    for (event, shard) in [
        (message("a", "s0-1"), 0u64),
        (message("b", "s1-1"), 1u64),
        (message("c", "s0-2"), 0u64),
        (message("d", "s1-2"), 1u64),
    ] {
        if let DispatchOutcome::HandlerInvoked { content, .. } = d.dispatch(&event, shard) {
            observed.push((shard, content));
        }
    }
    let shard0: Vec<_> = observed.iter().filter(|(s, _)| *s == 0).map(|(_, c)| c.clone()).collect();
    let shard1: Vec<_> = observed.iter().filter(|(s, _)| *s == 1).map(|(_, c)| c.clone()).collect();
    assert_eq!(shard0, vec!["s0-1".to_string(), "s0-2".to_string()]);
    assert_eq!(shard1, vec!["s1-1".to_string(), "s1-2".to_string()]);
}

#[test]
fn message_events_leave_the_cache_alone() {
    let mut d = Dispatcher::new();
    d.dispatch(&Event::GuildCreate { guild_id: 7 }, 0);
    let outcome = d.dispatch(&message("alice", "hi"), 0);
    assert_eq!(
        outcome,
        DispatchOutcome::HandlerInvoked { author: "alice".to_string(), content: "hi".to_string() }
    );
    assert_eq!(d.cache.current_user, None);
    assert_eq!(d.reporter_tick(), 1);
}
