//! Per-endpoint request cycle: a handler decodes the body, dispatches to
//! the backend and awaits the correlated response with retries, then turns
//! the outcome into the HTTP answer — a success status, or a taxonomy
//! error the caller renders with the kind's status code and JSON body.

use vstd::prelude::*;

use crate::dispatch;
use crate::dispatch::{BackendStatus, RetryPolicy};
use crate::errors::RestApiError;

verus! {

/// The HTTP status a successful batch submission answers with.
pub const SUBMISSION_ACCEPTED: u16 = 202;

/// Runs a decoded submission through its dispatch attempts and maps the
/// result onto the HTTP answer: accepted, or the surfaced failure kind as a
/// detail-free error. `statuses[i]` is what the backend reports on attempt
/// `i`, so the slice must cover the policy's attempt budget.
pub fn submission_outcome(policy: &RetryPolicy, statuses: &Vec<BackendStatus>) -> (answer: Result<
    u16,
    RestApiError,
>)
    requires
        policy.max_attempts >= 1,
        statuses@.len() >= policy.max_attempts,
    ensures
        ({
            let run = dispatch::spec_run_from(*policy, statuses@, 0);
            match answer {
                Ok(status) => status == SUBMISSION_ACCEPTED && run.0 is None,
                Err(e) => run.0 matches Some(kind) && e.kind == kind && e.info is None,
            }
        }),
{
    let outcome = dispatch::run_attempts(policy, statuses);
    match outcome.failure {
        None => Ok(SUBMISSION_ACCEPTED),
        Some(kind) => Err(RestApiError { info: None, kind }),
    }
}

} // verus!
