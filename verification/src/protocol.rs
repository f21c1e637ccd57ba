//! The messages exchanged with the server and the endpoints they go to.

use vstd::prelude::*;
use crate::text::concat;

verus! {

/// A batch of logs sent by one agent.
#[derive(Debug, Clone)]
pub struct UploadRequest<T> {
    pub agent_id: String,
    pub logs: Vec<T>,
}

/// The server's answer to an upload: which entries it took and which failed.
#[derive(Debug, Clone)]
pub struct UploadAck {
    pub accepted: Vec<i64>,
    pub failed: Vec<i64>,
}

/// Whether `id` occurs in `v`.
fn contains_id(v: &Vec<i64>, id: i64) -> (b: bool)
    ensures
        b == v@.contains(id),
{
    let mut i: usize = 0;
    while i < v.len()
        invariant
            i <= v.len(),
            forall|k: int| 0 <= k < i ==> v@[k] != id,
        decreases v.len() - i,
    {
        if v[i] == id {
            return true;
        }
        i = i + 1;
    }
    false
}

impl UploadAck {
    /// The server took the entry `id`.
    pub fn is_success(&self, id: i64) -> (b: bool)
        ensures
            b == self.accepted@.contains(id),
    {
        contains_id(&self.accepted, id)
    }

    /// The entry `id` failed on the server and should be sent again.
    pub fn should_retry(&self, id: i64) -> (b: bool)
        ensures
            b == self.failed@.contains(id),
    {
        contains_id(&self.failed, id)
    }
}

/// The URL that log batches are posted to.
pub fn logs_url(server_url: &str) -> (u: String)
    ensures
        u@ == server_url@ + "/api/agent/logs"@,
{
    concat(server_url, "/api/agent/logs")
}

/// The URL that heartbeats are posted to.
pub fn heartbeat_url(server_url: &str) -> (u: String)
    ensures
        u@ == server_url@ + "/api/agent/heartbeat"@,
{
    concat(server_url, "/api/agent/heartbeat")
}

} // verus!
