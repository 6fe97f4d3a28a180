use shardfleet::cache::Identity;
use shardfleet::dispatcher::{DispatchOutcome, Dispatcher, Event};
use shardfleet::manager::ShardManager;
use shardfleet::shard::{ConnectionState, ShardEvent};
use shardfleet::topology::{
    gateway_info_url, plan_resolution, resolve_from_body, topology_from_parts, Resolution,
    ResolvePlan, Topology, TopologyError,
};

#[test]
fn gateway_url_joins_guild_ids_with_commas() {
    let ids = vec!["1".to_string(), "2".to_string()];
    let url = gateway_info_url("http://proxy", &ids);
    assert_eq!(url, "http://proxy/api/gateway/bot?guild_ids=1,2");
    let one = gateway_info_url("http://proxy", &vec!["42".to_string()]);
    assert_eq!(one, "http://proxy/api/gateway/bot?guild_ids=42");
}

#[test]
fn empty_guild_list_plans_the_auto_path() {
    let plan = plan_resolution("http://proxy", &Vec::new());
    assert_eq!(plan, ResolvePlan::Auto);
    assert_eq!(Resolution::Auto.shard_count(), 1);
}

#[test]
fn configured_guilds_plan_one_gateway_info_request() {
    let ids = vec!["5".to_string(), "6".to_string(), "7".to_string()];
    let plan = plan_resolution("https://gw", &ids);
    assert_eq!(
        plan,
        ResolvePlan::FetchGatewayInfo {
            url: "https://gw/api/gateway/bot?guild_ids=5,6,7".to_string()
        }
    );
}

#[test]
fn well_formed_response_resolves_the_topology() {
    let r = resolve_from_body("{\"url\": \"wss://x\", \"shards\": 3}");
    assert_eq!(r, Ok(Topology { shard_count: 3, gateway_url: "wss://x".to_string() }));
}

#[test]
fn malformed_or_incomplete_responses_are_fatal() {
    assert_eq!(resolve_from_body("not json"), Err(TopologyError::Malformed));
    assert_eq!(resolve_from_body("{\"url\": \"wss://x\","), Err(TopologyError::Malformed));
    assert_eq!(resolve_from_body("{}"), Err(TopologyError::MissingUrl));
    assert_eq!(resolve_from_body("{\"shards\": 2}"), Err(TopologyError::MissingUrl));
    assert_eq!(resolve_from_body("{\"url\": 5, \"shards\": 2}"), Err(TopologyError::MissingUrl));
    assert_eq!(resolve_from_body("{\"url\": \"wss://x\"}"), Err(TopologyError::MissingShardCount));
    assert_eq!(
        resolve_from_body("{\"url\": \"wss://x\", \"shards\": \"3\"}"),
        Err(TopologyError::MissingShardCount)
    );
    assert_eq!(
        resolve_from_body("{\"url\": \"wss://x\", \"shards\": 0}"),
        Err(TopologyError::ZeroShards)
    );
    // A well-formed body that is no object has neither field.
    assert_eq!(resolve_from_body("[1, 2]"), Err(TopologyError::MissingUrl));
    // A negative count is no u64.
    assert_eq!(
        resolve_from_body("{\"url\": \"wss://x\", \"shards\": -1}"),
        Err(TopologyError::MissingShardCount)
    );
}

#[test]
fn topology_parts_decide_the_exact_error() {
    assert_eq!(topology_from_parts(None, Some(3)), Err(TopologyError::MissingUrl));
    assert_eq!(
        topology_from_parts(Some("wss://x".to_string()), None),
        Err(TopologyError::MissingShardCount)
    );
    assert_eq!(
        topology_from_parts(Some("wss://x".to_string()), Some(0)),
        Err(TopologyError::ZeroShards)
    );
    assert_eq!(
        topology_from_parts(Some("wss://x".to_string()), Some(1)),
        Ok(Topology { shard_count: 1, gateway_url: "wss://x".to_string() })
    );
}

#[test]
fn auto_path_runs_one_shard_and_reports_zero_guilds() {
    // No guild ids configured: the resolver yields the auto sentinel.
    let plan = plan_resolution("http://proxy", &Vec::new());
    assert_eq!(plan, ResolvePlan::Auto);
    let resolution = Resolution::Auto;
    // The manager starts exactly one shard, whose handshake succeeds.
    let mut manager = ShardManager::start(resolution.shard_count());
    assert_eq!(manager.shards.len(), 1);
    manager.handle_shard_event(0, ShardEvent::HandshakeComplete);
    assert_eq!(manager.shards[0].state, ConnectionState::Ready);
    // Shard 0's Ready event records the identity and starts the reporter.
    let mut dispatcher = Dispatcher::new();
    let outcome = dispatcher.dispatch(
        &Event::Ready {
            identity: Identity { name: "bot".to_string() },
            guild_snapshot: Vec::new(),
        },
        0,
    );
    assert_eq!(
        outcome,
        DispatchOutcome::ReadyAnnounced {
            user_name: "bot".to_string(),
            guild_count: 0,
            start_reporter: true,
        }
    );
    // With no membership events yet, the reporter's tick reads a count of 0.
    assert_eq!(dispatcher.reporter_tick(), 0);
}

#[test]
fn explicit_path_runs_every_resolved_shard_to_ready() {
    let ids = vec!["1".to_string(), "2".to_string()];
    let plan = plan_resolution("http://proxy", &ids);
    assert_eq!(
        plan,
        ResolvePlan::FetchGatewayInfo {
            url: "http://proxy/api/gateway/bot?guild_ids=1,2".to_string()
        }
    );
    // The stubbed endpoint answers with three shards.
    let topology = resolve_from_body("{\"url\": \"wss://x\", \"shards\": 3}").unwrap();
    assert_eq!(topology.shard_count, 3);
    assert_eq!(topology.gateway_url, "wss://x");
    let resolution = Resolution::Explicit(topology);
    let mut manager = ShardManager::start(resolution.shard_count());
    assert_eq!(manager.shards.len(), 3);
    for i in 0..3 {
        manager.handle_shard_event(i, ShardEvent::HandshakeComplete);
    }
    assert_eq!(manager.ready_count(), 3);
}
