//! The entries of the local upload queue, as read back from the queue's table.

use vstd::prelude::*;
use crate::json::{json_parse, parse_json_value};

verus! {

/// A queued event: its id, its JSON payload and how often its upload was retried.
#[derive(Debug)]
pub struct QueueItem {
    pub id: i64,
    pub payload: serde_json::Value,
    pub retry_count: i64,
}

/// The queue entries of rows `(id, payload text, retry count)`, in order; `None` when
/// some payload is not JSON.
pub fn queue_items(rows: Vec<(i64, String, i64)>) -> (r: Option<Vec<QueueItem>>)
    ensures
        (r is Some) <==> forall|i: int| 0 <= i < rows@.len() ==> (#[trigger] json_parse(rows@[i].1@)) is Some,
        r matches Some(v) ==> v@.len() == rows@.len() && forall|i: int|
            0 <= i < rows@.len() ==> {
                &&& (#[trigger] v@[i]).id == rows@[i].0
                &&& v@[i].retry_count == rows@[i].2
                &&& json_parse(rows@[i].1@) == Some(v@[i].payload)
            },
{
    let mut items: Vec<QueueItem> = Vec::new();
    let mut i: usize = 0;
    while i < rows.len()
        invariant
            i <= rows.len(),
            items@.len() == i,
            forall|k: int| 0 <= k < i ==> (#[trigger] json_parse(rows@[k].1@)) is Some,
            forall|k: int|
                0 <= k < i ==> {
                    &&& (#[trigger] items@[k]).id == rows@[k].0
                    &&& items@[k].retry_count == rows@[k].2
                    &&& json_parse(rows@[k].1@) == Some(items@[k].payload)
                },
        decreases rows.len() - i,
    {
        match parse_json_value(rows[i].1.as_str()) {
            Some(payload) => {
                items.push(QueueItem { id: rows[i].0, payload, retry_count: rows[i].2 });
            },
            None => {
                return None;
            },
        }
        i = i + 1;
    }
    Some(items)
}

} // verus!
