//! One turn of the heartbeat loop: what to post, where, and how long to wait after.

use vstd::prelude::*;
use crate::protocol::heartbeat_url;
use crate::text::copy_str;

verus! {

/// Seconds between two heartbeats.
pub const HEARTBEAT_INTERVAL_SECS: u64 = 30;

/// The body of a heartbeat.
#[derive(Debug, Clone)]
pub struct HeartbeatPayload {
    pub agent_id: String,
    pub hostname: String,
    pub version: String,
}

/// A heartbeat to post to `url` (with the bearer token, if any), then a pause.
#[derive(Debug, Clone)]
pub struct HeartbeatRequest {
    pub url: String,
    pub bearer_token: Option<String>,
    pub payload: HeartbeatPayload,
    pub then_sleep_secs: u64,
}

/// The heartbeat of this turn; whether it is delivered or not, the next one follows
/// thirty seconds later.
pub fn heartbeat_request(
    server_url: &str,
    token: Option<&str>,
    agent_id: &str,
    hostname: &str,
    version: &str,
) -> (r: HeartbeatRequest)
    ensures
        r.url@ == server_url@ + "/api/agent/heartbeat"@,
        match token {
            Some(t) => r.bearer_token matches Some(b) && b@ == t@,
            None => r.bearer_token is None,
        },
        r.payload.agent_id@ == agent_id@,
        r.payload.hostname@ == hostname@,
        r.payload.version@ == version@,
        r.then_sleep_secs == 30,
{
    HeartbeatRequest {
        url: heartbeat_url(server_url),
        bearer_token: match token {
            Some(t) => Some(copy_str(t)),
            None => None,
        },
        payload: HeartbeatPayload {
            agent_id: copy_str(agent_id),
            hostname: copy_str(hostname),
            version: copy_str(version),
        },
        then_sleep_secs: HEARTBEAT_INTERVAL_SECS,
    }
}

} // verus!
