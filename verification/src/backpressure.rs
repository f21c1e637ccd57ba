//! How full the local event queue may get before new events are refused or a warning is due.

use vstd::prelude::*;
use crate::text::{decimal, decimal_string, push_str};

verus! {

/// The capacity rule of the local queue.
#[derive(Debug, Clone)]
pub struct QueuePolicy {
    /// Maximum number of pending events allowed locally.
    pub max_events: i64,
    /// Whether the collector should reject new events when full.
    pub reject_when_full: bool,
}

/// The queue is at or above its capacity and the policy refuses more events.
#[derive(Debug, Clone, PartialEq, Eq)]
pub struct CapacityExceeded {
    pub current_size: i64,
    pub max_events: i64,
}

impl Default for QueuePolicy {
    fn default() -> (p: Self)
        ensures
            p.max_events == 500_000,
            p.reject_when_full,
    {
        QueuePolicy { max_events: 500_000, reject_when_full: true }
    }
}

/// The policy refuses an event when the queue holds `current_size` events.
pub open spec fn refuses(policy: QueuePolicy, current_size: int) -> bool {
    current_size >= policy.max_events && policy.reject_when_full
}

/// The policy warns when the queue holds `current_size` events.
pub open spec fn warns(policy: QueuePolicy, current_size: int) -> bool {
    current_size >= warn_threshold(policy.max_events as int)
}

/// Eighty percent of `max_events`, rounded toward zero.
pub open spec fn warn_threshold(max_events: int) -> int {
    if max_events >= 0 {
        (max_events * 4) / 5
    } else {
        -((-max_events * 4) / 5)
    }
}

/// The decimal rendering of a signed number, with a leading `-` when it is negative.
pub open spec fn signed_decimal(n: int) -> Seq<char> {
    if n >= 0 {
        decimal(n as nat)
    } else {
        seq!['-'] + decimal((-n) as nat)
    }
}

/// The text of the refusal: `local queue capacity exceeded: <current>/<max>`.
pub open spec fn capacity_message(current_size: int, max_events: int) -> Seq<char> {
    "local queue capacity exceeded: "@ + signed_decimal(current_size) + "/"@ + signed_decimal(
        max_events,
    )
}

/// Appends the decimal rendering of `n` to `s`.
fn push_signed_decimal(s: &mut String, n: i64)
    ensures
        final(s)@ == old(s)@ + signed_decimal(n as int),
{
    if n >= 0 {
        let d = decimal_string(n as u64);
        push_str(s, d.as_str());
    } else {
        let magnitude: u64 = if n == i64::MIN {
            9_223_372_036_854_775_808u64
        } else {
            (-n) as u64
        };
        push_str(s, "-");
        let d = decimal_string(magnitude);
        push_str(s, d.as_str());
        proof {
            reveal_strlit("-");
        }
        assert(old(s)@ + "-"@ + decimal(magnitude as nat) =~= old(s)@ + signed_decimal(n as int));
    }
}

impl CapacityExceeded {
    /// The refusal as text, as the agent reports it.
    pub fn message(&self) -> (m: String)
        ensures
            m@ == capacity_message(self.current_size as int, self.max_events as int),
    {
        let mut m = String::new();
        push_str(&mut m, "local queue capacity exceeded: ");
        push_signed_decimal(&mut m, self.current_size);
        push_str(&mut m, "/");
        push_signed_decimal(&mut m, self.max_events);
        assert(m@ =~= capacity_message(self.current_size as int, self.max_events as int));
        m
    }
}

impl QueuePolicy {
    /// Refuses when the queue holds `max_events` or more and the policy rejects when full.
    pub fn check_capacity(&self, current_size: i64) -> (r: Result<(), CapacityExceeded>)
        ensures
            r is Err <==> refuses(*self, current_size as int),
            r matches Err(e) ==> e == (CapacityExceeded {
                current_size,
                max_events: self.max_events,
            }),
    {
        if current_size >= self.max_events && self.reject_when_full {
            return Err(CapacityExceeded { current_size, max_events: self.max_events });
        }
        Ok(())
    }

    /// Whether the queue has reached eighty percent of its capacity.
    pub fn should_warn(&self, current_size: i64) -> (b: bool)
        ensures
            b == warns(*self, current_size as int),
    {
        let scaled: i128 = (self.max_events as i128) * 4;
        let threshold: i128 = if scaled >= 0 {
            scaled / 5
        } else {
            -((-scaled) / 5)
        };
        (current_size as i128) >= threshold
    }
}

} // verus!

verus! {

/// When the queue is refused for being full, the warning is due as well (for a capacity
/// that is not negative).
pub proof fn lemma_refusal_implies_warning(policy: QueuePolicy, current_size: i64)
    requires
        policy.max_events >= 0,
    ensures
        refuses(policy, current_size as int) ==> warns(policy, current_size as int),
{
    assert((policy.max_events * 4) / 5 <= policy.max_events);
}

/// A policy that does not reject never refuses, whatever the queue size.
pub proof fn lemma_lenient_policy_never_refuses(policy: QueuePolicy, current_size: i64)
    requires
        !policy.reject_when_full,
    ensures
        !refuses(policy, current_size as int),
{
}

} // verus!

verus! {

/// The warning depends only on the queue size and the capacity, never on whether the
/// policy rejects when full: it is due exactly when the size reaches 80% of the capacity,
/// rounded toward zero (for a capacity `m >= 0`: `5 * size + 4 >= 4 * m`; for `m < 0`:
/// `5 * size >= 4 * m`).
pub proof fn lemma_warning_is_eighty_percent(p: QueuePolicy, q: QueuePolicy, current_size: i64)
    requires
        p.max_events == q.max_events,
    ensures
        warns(p, current_size as int) == warns(q, current_size as int),
        p.max_events >= 0 ==> (warns(p, current_size as int) <==> 5 * current_size + 4 >= 4
            * p.max_events),
        p.max_events < 0 ==> (warns(p, current_size as int) <==> 5 * current_size >= 4
            * p.max_events),
{
    let m = p.max_events as int;
    let c = current_size as int;
    if m >= 0 {
        let t = (m * 4) / 5;
        assert(5 * t <= 4 * m && 4 * m < 5 * t + 5);
    } else {
        let t = (-m * 4) / 5;
        assert(5 * t <= -4 * m && -4 * m < 5 * t + 5);
    }
}

} // verus!
