//! Counters of the agent and their Prometheus text exposition.

use vstd::prelude::*;
use crate::text::{decimal, decimal_string, push_str};

verus! {

/// A point in time as seconds and nanoseconds since the Unix epoch.
#[derive(Debug, Clone, Copy, PartialEq, Eq)]
pub struct Timestamp {
    pub secs: i64,
    pub nanos: u32,
}

/// `chrono::Utc::now`, split into seconds and sub-second nanoseconds. chrono reads the
/// system clock as a duration since the epoch, so the seconds are not negative and the
/// nanoseconds stay below one second; which instant comes back is not stated.
#[verifier::external_body]
fn utc_now() -> (t: Timestamp)
    ensures
        t.secs >= 0,
        t.nanos < 1_000_000_000,
{
    let now = chrono::Utc::now();
    Timestamp { secs: now.timestamp(), nanos: now.timestamp_subsec_nanos() }
}

/// The current time.
pub fn now() -> (t: Timestamp)
    ensures
        t.secs >= 0,
        t.nanos < 1_000_000_000,
{
    utc_now()
}

/// What the agent counts while it runs.
#[derive(Debug, Clone)]
pub struct AgentMetrics {
    pub queue_size: u64,
    pub sent_total: u64,
    pub retry_total: u64,
    pub failed_total: u64,
    pub last_success: Option<Timestamp>,
    pub last_error: Option<String>,
    pub started_at: Option<Timestamp>,
}

impl Default for AgentMetrics {
    fn default() -> (m: Self)
        ensures
            m.queue_size == 0,
            m.sent_total == 0,
            m.retry_total == 0,
            m.failed_total == 0,
            m.last_success is None,
            m.last_error is None,
            m.started_at is None,
    {
        AgentMetrics {
            queue_size: 0,
            sent_total: 0,
            retry_total: 0,
            failed_total: 0,
            last_success: None,
            last_error: None,
            started_at: None,
        }
    }
}

/// The Prometheus exposition of the four counters.
pub open spec fn prometheus_text(queue_size: nat, sent_total: nat, retry_total: nat, failed_total: nat) -> Seq<char> {
    "# HELP loghub_agent_queue_size Current queue size\n# TYPE loghub_agent_queue_size gauge\nloghub_agent_queue_size "@
        + decimal(queue_size)
        + "\n# HELP loghub_agent_sent_total Sent logs\n# TYPE loghub_agent_sent_total counter\nloghub_agent_sent_total "@
        + decimal(sent_total)
        + "\n# HELP loghub_agent_retry_total Retry count\n# TYPE loghub_agent_retry_total counter\nloghub_agent_retry_total "@
        + decimal(retry_total)
        + "\n# HELP loghub_agent_failed_total Failed logs\n# TYPE loghub_agent_failed_total counter\nloghub_agent_failed_total "@
        + decimal(failed_total) + "\n"@
}

impl AgentMetrics {
    /// Zero counters, started now.
    pub fn new() -> (m: Self)
        ensures
            m.queue_size == 0,
            m.sent_total == 0,
            m.retry_total == 0,
            m.failed_total == 0,
            m.last_success is None,
            m.last_error is None,
            m.started_at matches Some(t) && t.secs >= 0 && t.nanos < 1_000_000_000,
    {
        AgentMetrics { started_at: Some(now()), ..Default::default() }
    }

    /// The counters in the Prometheus text format.
    pub fn prometheus(&self) -> (text: String)
        ensures
            text@ == prometheus_text(
                self.queue_size as nat,
                self.sent_total as nat,
                self.retry_total as nat,
                self.failed_total as nat,
            ),
    {
        let mut text = String::new();
        push_str(&mut text, "# HELP loghub_agent_queue_size Current queue size\n# TYPE loghub_agent_queue_size gauge\nloghub_agent_queue_size ");
        let d = decimal_string(self.queue_size);
        push_str(&mut text, d.as_str());
        push_str(&mut text, "\n# HELP loghub_agent_sent_total Sent logs\n# TYPE loghub_agent_sent_total counter\nloghub_agent_sent_total ");
        let d = decimal_string(self.sent_total);
        push_str(&mut text, d.as_str());
        push_str(&mut text, "\n# HELP loghub_agent_retry_total Retry count\n# TYPE loghub_agent_retry_total counter\nloghub_agent_retry_total ");
        let d = decimal_string(self.retry_total);
        push_str(&mut text, d.as_str());
        push_str(&mut text, "\n# HELP loghub_agent_failed_total Failed logs\n# TYPE loghub_agent_failed_total counter\nloghub_agent_failed_total ");
        let d = decimal_string(self.failed_total);
        push_str(&mut text, d.as_str());
        push_str(&mut text, "\n");
        assert(text@ =~= prometheus_text(
            self.queue_size as nat,
            self.sent_total as nat,
            self.retry_total as nat,
            self.failed_total as nat,
        ));
        text
    }
}

} // verus!
