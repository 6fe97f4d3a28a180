//! The topology resolver: decides how many shard connections the fleet needs
//! and which gateway URL they connect to. An empty guild list resolves to the
//! "auto" sentinel (one shard); a non-empty one asks the platform's
//! gateway-info endpoint and takes the count and URL from its response.

use vstd::prelude::*;
use vstd::string::StringExecFns;
use crate::json::{
    gateway_shards_of, gateway_shards_field, gateway_url_of, gateway_url_field, is_json_value,
    json_from_str,
};

verus! {

/// Why resolving the topology failed; fatal to startup.
#[derive(Clone, Copy, Debug, PartialEq, Eq, Structural)]
pub enum TopologyError {
    /// The gateway-info request itself erred or timed out.
    RequestFailed,
    /// The response body is not well-formed JSON.
    Malformed,
    /// The response carries no `url` string.
    MissingUrl,
    /// The response carries no `shards` integer.
    MissingShardCount,
    /// The response asks for zero shards, which no fleet can satisfy.
    ZeroShards,
}

/// The resolved connection topology, immutable for the process lifetime.
#[derive(Clone, Debug, PartialEq)]
pub struct Topology {
    /// How many shard connections to run; at least one.
    pub shard_count: u64,
    /// The gateway URL every shard connects to.
    pub gateway_url: String,
}

impl Topology {
    /// A topology always asks for at least one shard.
    pub open spec fn wf(self) -> bool {
        self.shard_count >= 1
    }
}

/// What the resolver decided: the "auto" sentinel, or an explicit topology
/// taken from the gateway-info response.
#[derive(Clone, Debug, PartialEq)]
pub enum Resolution {
    /// Connect without an explicit count and let the platform assign one
    /// shard; reconnection is the shard connection layer's job.
    Auto,
    /// Run exactly the returned number of shards against the returned URL.
    Explicit(Topology),
}

impl Resolution {
    /// An explicit topology keeps its invariant.
    pub open spec fn wf(self) -> bool {
        match self {
            Resolution::Auto => true,
            Resolution::Explicit(t) => t.wf(),
        }
    }

    /// How many shard connections this resolution asks the manager to start.
    pub open spec fn spec_shard_count(self) -> u64 {
        match self {
            Resolution::Auto => 1,
            Resolution::Explicit(t) => t.shard_count,
        }
    }

    /// How many shard connections this resolution asks the manager to start:
    /// one on the "auto" path, the resolved count otherwise.
    pub fn shard_count(&self) -> (n: u64)
        ensures
            n == self.spec_shard_count(),
            self.wf() ==> n >= 1,
    {
        match self {
            Resolution::Auto => 1,
            Resolution::Explicit(t) => t.shard_count,
        }
    }
}

/// The first step of resolving: what must happen before a topology is known.
#[derive(Clone, Debug, PartialEq)]
pub enum ResolvePlan {
    /// No guild ids were configured: use the "auto" sentinel, no request.
    Auto,
    /// Ask the gateway-info endpoint at this URL and hand the response body
    /// to `resolve_from_body`.
    FetchGatewayInfo {
        /// The fully built request URL.
        url: String,
    },
}

/// The query path of the gateway-info endpoint, up to the guild id list.
pub open spec fn spec_gateway_path() -> Seq<char> {
    "/api/gateway/bot?guild_ids="@
}

/// The guild ids joined with commas, in order.
pub open spec fn spec_join_ids(ids: Seq<String>) -> Seq<char>
    decreases ids.len(),
{
    if ids.len() == 0 {
        Seq::empty()
    } else if ids.len() == 1 {
        ids[0]@
    } else {
        spec_join_ids(ids.drop_last()) + ","@ + ids.last()@
    }
}

/// The full gateway-info request URL for a base URL and guild id list.
pub open spec fn spec_gateway_info_url(base: Seq<char>, ids: Seq<String>) -> Seq<char> {
    base + spec_gateway_path() + spec_join_ids(ids)
}

/// Builds the gateway-info request URL: the base URL, the endpoint path, and
/// the guild ids joined with commas, in order.
pub fn gateway_info_url(base: &str, guild_ids: &Vec<String>) -> (url: String)
    ensures
        url@ == spec_gateway_info_url(base@, guild_ids@),
{
    let mut url: String = base.to_owned();
    url.append("/api/gateway/bot?guild_ids=");
    let mut i: usize = 0;
    let len = guild_ids.len();
    while i < len
        invariant
            i <= len,
            len == guild_ids@.len(),
            url@ == base@ + spec_gateway_path() + spec_join_ids(guild_ids@.take(i as int)),
        decreases len - i,
    {
        if i > 0 {
            url.append(",");
        }
        url.append(guild_ids[i].as_str());
        proof {
            let taken = guild_ids@.take(i + 1);
            assert(taken.drop_last() =~= guild_ids@.take(i as int));
            assert(taken.last() == guild_ids@[i as int]);
            if i == 0 {
                assert(spec_join_ids(taken) == guild_ids@[0]@);
                assert(url@ =~= base@ + spec_gateway_path() + spec_join_ids(taken));
            } else {
                assert(url@ =~= base@ + spec_gateway_path() + spec_join_ids(taken));
            }
        }
        i = i + 1;
    }
    proof {
        assert(guild_ids@.take(len as int) =~= guild_ids@);
    }
    url
}

/// Decides how to resolve the topology from the configured guild ids: the
/// "auto" sentinel when none are configured, otherwise a single request to
/// the gateway-info endpoint, parameterized by the guild id list.
pub fn plan_resolution(base: &str, guild_ids: &Vec<String>) -> (plan: ResolvePlan)
    ensures
        guild_ids@.len() == 0 ==> plan == ResolvePlan::Auto,
        guild_ids@.len() > 0 ==> (plan matches ResolvePlan::FetchGatewayInfo { url } && url@
            == spec_gateway_info_url(base@, guild_ids@)),
{
    if guild_ids.len() == 0 {
        ResolvePlan::Auto
    } else {
        ResolvePlan::FetchGatewayInfo { url: gateway_info_url(base, guild_ids) }
    }
}

/// Builds the topology from the fields extracted from a gateway-info
/// response: exactly which field is missing or unusable decides the error,
/// and any present, positive count yields that topology.
pub fn topology_from_parts(url: Option<String>, shards: Option<u64>) -> (r: Result<
    Topology,
    TopologyError,
>)
    ensures
        url is None ==> r == Err::<Topology, TopologyError>(TopologyError::MissingUrl),
        url is Some && shards is None ==> r == Err::<Topology, TopologyError>(
            TopologyError::MissingShardCount,
        ),
        url is Some && shards == Some(0u64) ==> r == Err::<Topology, TopologyError>(
            TopologyError::ZeroShards,
        ),
        url matches Some(u) ==> (shards matches Some(n) ==> (n >= 1 ==> r == Ok::<
            Topology,
            TopologyError,
        >(Topology { shard_count: n, gateway_url: u }))),
        r matches Ok(t) ==> t.wf(),
{
    match url {
        None => Err(TopologyError::MissingUrl),
        Some(u) => match shards {
            None => Err(TopologyError::MissingShardCount),
            Some(n) => {
                if n == 0 {
                    Err(TopologyError::ZeroShards)
                } else {
                    Ok(Topology { shard_count: n, gateway_url: u })
                }
            },
        },
    }
}

/// Resolves a topology from the gateway-info response body: parses the JSON
/// and takes the topology from the `url` string and the `shards` count.
/// Exactly one clause fits every body: not JSON fails with `Malformed`, a
/// missing field with its own error, a zero count with `ZeroShards`, and a
/// body carrying both fields with a positive count yields exactly that
/// topology.
pub fn resolve_from_body(body: &str) -> (r: Result<Topology, TopologyError>)
    ensures
        r == Err::<Topology, TopologyError>(TopologyError::Malformed) <==> !is_json_value(body@),
        r == Err::<Topology, TopologyError>(TopologyError::MissingUrl) <==> is_json_value(body@)
            && gateway_url_of(body@) is None,
        r == Err::<Topology, TopologyError>(TopologyError::MissingShardCount) <==> is_json_value(
            body@,
        ) && gateway_url_of(body@) is Some && gateway_shards_of(body@) is None,
        r == Err::<Topology, TopologyError>(TopologyError::ZeroShards) <==> is_json_value(body@)
            && gateway_url_of(body@) is Some && gateway_shards_of(body@) == Some(0u64),
        is_json_value(body@) ==> (gateway_url_of(body@) matches Some(u) ==> (gateway_shards_of(
            body@,
        ) matches Some(n) ==> (n >= 1 ==> (r matches Ok(t) && t.shard_count == n && t.gateway_url@
            == u)))),
        r matches Ok(t) ==> t.wf(),
        r != Err::<Topology, TopologyError>(TopologyError::RequestFailed),
{
    match json_from_str(body) {
        Err(_) => Err(TopologyError::Malformed),
        Ok(_) => {
            let url = gateway_url_field(body);
            let shards = gateway_shards_field(body);
            topology_from_parts(url, shards)
        },
    }
}

} // verus!
