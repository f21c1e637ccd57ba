//! The decisions of the loop that drains the local queue to the server.
//!
//! The loop itself (reading the queue, the HTTP request, sleeping) runs outside the
//! library; at each turn it asks what to do next and reports what happened.

use vstd::prelude::*;

verus! {

/// How many queued entries one upload takes at most.
pub const UPLOAD_LIMIT: i32 = 200;

/// Seconds to wait when the queue is empty or an upload did not go through.
pub const PAUSE_SECS: u64 = 5;

/// Seconds an upload request may take.
pub const REQUEST_TIMEOUT_SECS: u64 = 10;

/// What the sender does with the entries it read from the queue.
#[derive(Debug, Clone, PartialEq, Eq)]
pub enum SenderStep {
    /// Nothing is queued: wait, then look again.
    Idle { sleep_secs: u64 },
    /// Upload the entries with these ids.
    Upload { ids: Vec<i64> },
}

/// How an upload ended.
#[derive(Debug, Clone, Copy, PartialEq, Eq)]
pub enum UploadOutcome {
    /// The server answered with this HTTP status code.
    Status(u16),
    /// No answer came (connection failure, timeout).
    Failed,
}

/// What the sender does after an upload.
#[derive(Debug, Clone, PartialEq, Eq)]
pub enum AfterUpload {
    /// The server took the batch: remove these entries from the queue.
    Remove { ids: Vec<i64> },
    /// Count one more retry for each of these entries, then wait.
    Retry { ids: Vec<i64>, sleep_secs: u64 },
}

/// A status code in the 2xx range, as `http::StatusCode::is_success` decides.
pub open spec fn is_success_status(code: u16) -> bool {
    200 <= code && code <= 299
}

/// Whether a status code means success.
pub fn status_is_success(code: u16) -> (b: bool)
    ensures
        b == is_success_status(code),
{
    200 <= code && code <= 299
}

/// Upload the ids read from the queue, or wait when there are none.
pub fn plan_upload(ids: Vec<i64>) -> (step: SenderStep)
    ensures
        ids@.len() == 0 ==> step == (SenderStep::Idle { sleep_secs: 5 }),
        ids@.len() > 0 ==> (step matches SenderStep::Upload { ids: up } && up@ == ids@),
{
    if ids.len() == 0 {
        SenderStep::Idle { sleep_secs: PAUSE_SECS }
    } else {
        SenderStep::Upload { ids }
    }
}

/// Remove the uploaded entries when the server answered with success; otherwise count a
/// retry for each and wait.
pub fn after_upload(outcome: UploadOutcome, ids: Vec<i64>) -> (next: AfterUpload)
    ensures
        match outcome {
            UploadOutcome::Status(code) if is_success_status(code) => next matches AfterUpload::Remove { ids: r } && r@ == ids@,
            _ => next matches AfterUpload::Retry { ids: r, sleep_secs } && r@ == ids@ && sleep_secs == 5,
        },
{
    match outcome {
        UploadOutcome::Status(code) => {
            if status_is_success(code) {
                AfterUpload::Remove { ids }
            } else {
                AfterUpload::Retry { ids, sleep_secs: PAUSE_SECS }
            }
        },
        UploadOutcome::Failed => AfterUpload::Retry { ids, sleep_secs: PAUSE_SECS },
    }
}

} // verus!

verus! {

/// Only a 2xx answer counts as success: every informational, redirect, client-error
/// (4xx, such as a wrong token) and server-error (5xx) answer does not, so its entries
/// are kept and retried.
pub proof fn lemma_success_is_exactly_2xx(code: u16)
    ensures
        200 <= code < 300 ==> is_success_status(code),
        code < 200 ==> !is_success_status(code),
        300 <= code < 400 ==> !is_success_status(code),
        400 <= code < 500 ==> !is_success_status(code),
        500 <= code ==> !is_success_status(code),
{
}

} // verus!
