//! Orchestration of a fleet of gateway shard connections for a chat-platform
//! client: resolving how many shards are needed, supervising each shard's
//! connect/reconnect lifecycle with capped exponential backoff, fanning
//! incoming events out to a single dispatch point in per-shard order, and
//! keeping a monotone cache of observed guild membership.

pub mod backoff;
pub mod cache;
pub mod dispatcher;
pub mod json;
pub mod manager;
pub mod shard;
pub mod topology;
