//! Verified core of the LogHub log agent and log server.

pub mod text;
pub mod json;
pub mod wildcard;
pub mod backpressure;
pub mod retry;
pub mod compression;
pub mod protocol;
pub mod metrics;
pub mod worker_pool;
pub mod config;
pub mod identity;
pub mod collect;
pub mod sender;
pub mod server;
pub mod storage;
pub mod heartbeat;
