//! Retry policy of a bucket: how many attempts a request may make and how
//! long to wait between them.

use vstd::prelude::*;

verus! {

/// Retry policy for requests to one bucket's backend.
#[derive(Debug, Clone, Copy, PartialEq, Eq)]
pub struct RetryPolicy {
    /// Maximum number of attempts, the first one included.
    pub max_attempts: u32,
    /// Backoff before the first retry, in milliseconds.
    pub initial_backoff_ms: u64,
    /// Upper bound on any backoff, in milliseconds.
    pub max_backoff_ms: u64,
}

/// Whether a policy retries a response with this status: only 500, 502,
/// 503 and 504 are retried.
pub open spec fn policy_retriable_status(status: u16) -> bool {
    status == 500 || status == 502 || status == 503 || status == 504
}

impl RetryPolicy {
    /// Whether this policy retries a response with the given status.
    pub fn is_retriable_status(&self, status: u16) -> (r: bool)
        ensures
            r == policy_retriable_status(status),
    {
        status == 500 || status == 502 || status == 503 || status == 504
    }
}

/// Law: a retry policy retries the server errors 500 (internal error),
/// 502 (bad gateway), 503 (unavailable) and 504 (gateway timeout), and no
/// other status: not 501, not any 4xx, not a success.
pub proof fn law_policy_retries_gateway_errors(status: u16)
    ensures
        status == 500 ==> policy_retriable_status(status),
        status == 502 ==> policy_retriable_status(status),
        status == 503 ==> policy_retriable_status(status),
        status == 504 ==> policy_retriable_status(status),
        policy_retriable_status(status) ==> 500 <= status <= 504 && status != 501,
{
}

} // verus!
