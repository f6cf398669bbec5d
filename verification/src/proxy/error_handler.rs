//! Retry and failure decisions for upstream errors.
//!
//! Attempts are counted from 1: attempt 1 is the first try and attempt
//! `max_attempts` is the last one allowed.

use vstd::prelude::*;
use crate::retry::{RetryPolicy, policy_retriable_status};

verus! {

/// Action to take after an error occurs.
#[derive(Debug, Clone, PartialEq, Eq)]
pub enum ErrorAction {
    /// Retry the request.
    Retry {
        /// Current attempt number (1-indexed, before retry).
        current_attempt: u32,
        /// Next attempt number (after retry).
        next_attempt: u32,
        /// Maximum allowed attempts.
        max_attempts: u32,
    },
    /// Fail the request without retrying.
    Fail {
        /// Reason for not retrying.
        reason: FailReason,
    },
}

/// Reason why a request cannot be retried.
#[derive(Debug, Clone, PartialEq, Eq)]
pub enum FailReason {
    /// Maximum retry attempts have been exhausted.
    AttemptsExhausted {
        /// Number of attempts made.
        attempts: u32,
        /// Maximum allowed attempts.
        max_attempts: u32,
    },
    /// No retry policy is configured for this bucket.
    NoRetryPolicy,
    /// Client connection cannot be reused for retry.
    ClientNotReusable,
    /// Response buffer was truncated, cannot retry.
    BufferTruncated,
    /// Status code is not retriable according to policy.
    NotRetriableStatus {
        /// The status code.
        status: u16,
    },
}

/// Result of checking retry eligibility.
#[derive(Debug, Clone, PartialEq, Eq)]
pub enum RetryEligibility {
    /// Retry is allowed.
    Eligible {
        /// Current attempt number.
        current_attempt: u32,
    },
    /// Retry is not allowed.
    NotEligible {
        /// Reason why retry is not allowed.
        reason: FailReason,
    },
}

/// Context for proxy error handling.
#[derive(Debug, Clone)]
pub struct ProxyErrorContext {
    /// Whether the client connection can be reused.
    pub client_reused: bool,
    /// Whether the response buffer was truncated.
    pub buffer_truncated: bool,
}

/// Whether an error with this status is typically transient: 408, 429, 500,
/// 502, 503 and 504.
pub open spec fn retriable_status_spec(status: u16) -> bool {
    status == 408 || status == 429 || status == 500 || status == 502 || status == 503 || status
        == 504
}

/// The eligibility of a retry: no policy, then exhausted attempts, then a
/// status the policy does not retry, each rules it out in that order.
pub open spec fn retry_eligibility_spec(
    policy: Option<RetryPolicy>,
    current_attempt: u32,
    status: u16,
) -> RetryEligibility {
    match policy {
        None => RetryEligibility::NotEligible { reason: FailReason::NoRetryPolicy },
        Some(p) => if current_attempt >= p.max_attempts {
            RetryEligibility::NotEligible {
                reason: FailReason::AttemptsExhausted {
                    attempts: current_attempt,
                    max_attempts: p.max_attempts,
                },
            }
        } else if !policy_retriable_status(status) {
            RetryEligibility::NotEligible { reason: FailReason::NotRetriableStatus { status } }
        } else {
            RetryEligibility::Eligible { current_attempt }
        },
    }
}

/// Action after a connection failure (treated as a 502).
pub open spec fn connection_error_action_spec(
    policy: Option<RetryPolicy>,
    current_attempt: u32,
) -> ErrorAction {
    match retry_eligibility_spec(policy, current_attempt, 502) {
        RetryEligibility::Eligible { current_attempt } => ErrorAction::Retry {
            current_attempt,
            next_attempt: (current_attempt + 1) as u32,
            max_attempts: policy.unwrap().max_attempts,
        },
        RetryEligibility::NotEligible { reason } => ErrorAction::Fail { reason },
    }
}

/// Action after an error during data transfer: as for a connection
/// failure, but a retry also needs a reusable client and an intact buffer.
pub open spec fn proxy_error_action_spec(
    policy: Option<RetryPolicy>,
    current_attempt: u32,
    client_reused: bool,
    buffer_truncated: bool,
) -> ErrorAction {
    match retry_eligibility_spec(policy, current_attempt, 502) {
        RetryEligibility::Eligible { current_attempt } => if !client_reused {
            ErrorAction::Fail { reason: FailReason::ClientNotReusable }
        } else if buffer_truncated {
            ErrorAction::Fail { reason: FailReason::BufferTruncated }
        } else {
            ErrorAction::Retry {
                current_attempt,
                next_attempt: (current_attempt + 1) as u32,
                max_attempts: policy.unwrap().max_attempts,
            }
        },
        RetryEligibility::NotEligible { reason } => ErrorAction::Fail { reason },
    }
}

/// The policy a borrowed option refers to.
pub open spec fn deref_policy(p: Option<&RetryPolicy>) -> Option<RetryPolicy> {
    match p {
        Some(q) => Some(*q),
        None => None,
    }
}

/// Check if a retry should be attempted based on policy and current state.
///
/// Only 500/502/503/504 are retried by a policy; the broader set of
/// [`is_retriable_status`] serves classification.
pub fn check_retry_eligibility(
    retry_policy: Option<&RetryPolicy>,
    current_attempt: u32,
    status_code: u16,
) -> (r: RetryEligibility)
    ensures
        r == retry_eligibility_spec(deref_policy(retry_policy), current_attempt, status_code),
{
    let policy = match retry_policy {
        None => {
            return RetryEligibility::NotEligible { reason: FailReason::NoRetryPolicy };
        },
        Some(p) => p,
    };
    if current_attempt >= policy.max_attempts {
        return RetryEligibility::NotEligible {
            reason: FailReason::AttemptsExhausted {
                attempts: current_attempt,
                max_attempts: policy.max_attempts,
            },
        };
    }
    if !policy.is_retriable_status(status_code) {
        return RetryEligibility::NotEligible {
            reason: FailReason::NotRetriableStatus { status: status_code },
        };
    }
    RetryEligibility::Eligible { current_attempt }
}

/// Determine action for a connection failure.
pub fn determine_connection_error_action(
    retry_policy: Option<&RetryPolicy>,
    current_attempt: u32,
) -> (r: ErrorAction)
    ensures
        r == connection_error_action_spec(deref_policy(retry_policy), current_attempt),
{
    let eligibility = check_retry_eligibility(retry_policy, current_attempt, 502);
    match eligibility {
        RetryEligibility::Eligible { current_attempt } => {
            let max_attempts = match retry_policy {
                Some(p) => p.max_attempts,
                None => 1,
            };
            ErrorAction::Retry { current_attempt, next_attempt: current_attempt + 1, max_attempts }
        },
        RetryEligibility::NotEligible { reason } => ErrorAction::Fail { reason },
    }
}

/// Determine action for a proxy error (error during data transfer).
pub fn determine_proxy_error_action(
    retry_policy: Option<&RetryPolicy>,
    current_attempt: u32,
    context: &ProxyErrorContext,
) -> (r: ErrorAction)
    ensures
        r == proxy_error_action_spec(
            deref_policy(retry_policy),
            current_attempt,
            context.client_reused,
            context.buffer_truncated,
        ),
{
    let eligibility = check_retry_eligibility(retry_policy, current_attempt, 502);
    match eligibility {
        RetryEligibility::Eligible { current_attempt } => {
            if !context.client_reused {
                return ErrorAction::Fail { reason: FailReason::ClientNotReusable };
            }
            if context.buffer_truncated {
                return ErrorAction::Fail { reason: FailReason::BufferTruncated };
            }
            let max_attempts = match retry_policy {
                Some(p) => p.max_attempts,
                None => 1,
            };
            ErrorAction::Retry { current_attempt, next_attempt: current_attempt + 1, max_attempts }
        },
        RetryEligibility::NotEligible { reason } => ErrorAction::Fail { reason },
    }
}

/// Check if a request can be retried based on client state.
pub fn can_retry_request(client_reused: bool, buffer_truncated: bool) -> (r: bool)
    ensures
        r == (client_reused && !buffer_truncated),
{
    client_reused && !buffer_truncated
}

/// Check if a status code is considered retriable (408, 429, 500, 502, 503,
/// 504).
pub fn is_retriable_status(status_code: u16) -> (r: bool)
    ensures
        r == retriable_status_spec(status_code),
{
    let codes: [u16; 6] = [408, 429, 500, 502, 503, 504];
    let mut i: usize = 0;
    while i < 6
        invariant
            i <= 6,
            codes@ == seq![408u16, 429, 500, 502, 503, 504],
            forall|j: int| 0 <= j < i ==> codes@[j] != status_code,
        decreases 6 - i,
    {
        if codes[i] == status_code {
            return true;
        }
        i = i + 1;
    }
    false
}

/// Classify an error as transient or permanent.
#[derive(Debug, Clone, Copy, PartialEq, Eq)]
pub enum ErrorClassification {
    /// Transient error that may succeed on retry.
    Transient,
    /// Permanent error that will not succeed on retry.
    Permanent,
}

/// Classify an HTTP status code: transient exactly when it is retriable.
pub fn classify_status(status_code: u16) -> (r: ErrorClassification)
    ensures
        r == (if retriable_status_spec(status_code) {
            ErrorClassification::Transient
        } else {
            ErrorClassification::Permanent
        }),
{
    if is_retriable_status(status_code) {
        ErrorClassification::Transient
    } else {
        ErrorClassification::Permanent
    }
}

/// Cap on the backoff exponent, so the multiplier is at most 2^10 = 1024.
pub const MAX_BACKOFF_EXPONENT: u32 = 10;

/// Two to the power `e`.
pub open spec fn pow2_spec(e: nat) -> nat
    decreases e,
{
    if e == 0 {
        1
    } else {
        2 * pow2_spec((e - 1) as nat)
    }
}

/// The exponent used for an attempt: `attempt - 1`, at least 0 and at most
/// 10.
pub open spec fn backoff_exponent(attempt: u32) -> nat {
    let e: int = if attempt == 0 { 0 } else { attempt - 1 };
    if e > 10 { 10 } else { e as nat }
}

/// Exponential backoff `initial * 2^(attempt-1)` (exponent capped at 10,
/// product saturating at `u64::MAX`), capped at `max`.
pub open spec fn backoff_spec(attempt: u32, initial: u64, max: u64) -> u64 {
    let product = initial * pow2_spec(backoff_exponent(attempt));
    let base: int = if product > u64::MAX { u64::MAX as int } else { product };
    if base < max { base as u64 } else { max }
}

proof fn lemma_pow2_bounds(e: nat)
    requires
        e <= 10,
    ensures
        1 <= pow2_spec(e) <= 1024,
{
    lemma_pow2_monotone(0, e);
    lemma_pow2_monotone(e, 10);
    reveal_with_fuel(pow2_spec, 11);
}

proof fn lemma_pow2_monotone(a: nat, b: nat)
    requires
        a <= b,
    ensures
        pow2_spec(a) <= pow2_spec(b),
    decreases b,
{
    if a < b {
        lemma_pow2_monotone(a, (b - 1) as nat);
    }
}

/// Calculate backoff delay for a retry attempt: `initial * 2^(attempt-1)`,
/// exponent capped at 10, multiplication saturating, result capped at
/// `max_backoff_ms`. No jitter is added.
pub fn calculate_backoff(attempt: u32, initial_backoff_ms: u64, max_backoff_ms: u64) -> (r: u64)
    ensures
        r == backoff_spec(attempt, initial_backoff_ms, max_backoff_ms),
{
    let sub: u32 = attempt.saturating_sub(1);
    let exponent: u32 = if sub < MAX_BACKOFF_EXPONENT {
        sub
    } else {
        MAX_BACKOFF_EXPONENT
    };
    assert(exponent as nat == backoff_exponent(attempt));
    let mut multiplier: u64 = 1;
    let mut i: u32 = 0;
    while i < exponent
        invariant
            i <= exponent <= 10,
            multiplier as nat == pow2_spec(i as nat),
        decreases exponent - i,
    {
        proof {
            lemma_pow2_bounds(i as nat);
            lemma_pow2_monotone(i as nat, 9);
            reveal_with_fuel(pow2_spec, 10);
        }
        multiplier = multiplier * 2;
        i = i + 1;
    }
    let base_delay: u64 = match initial_backoff_ms.checked_mul(multiplier) {
        Some(v) => v,
        None => u64::MAX,
    };
    if base_delay < max_backoff_ms {
        base_delay
    } else {
        max_backoff_ms
    }
}

/// Calculate backoff delay using a retry policy.
pub fn calculate_policy_backoff(policy: &RetryPolicy, attempt: u32) -> (r: u64)
    ensures
        r == backoff_spec(attempt, policy.initial_backoff_ms, policy.max_backoff_ms),
{
    calculate_backoff(attempt, policy.initial_backoff_ms, policy.max_backoff_ms)
}

/// Law: the backoff never exceeds its cap and never shrinks as the attempt
/// number grows.
pub proof fn law_backoff_bounded_and_monotone(a1: u32, a2: u32, initial: u64, max: u64)
    requires
        a1 <= a2,
    ensures
        backoff_spec(a1, initial, max) <= max,
        backoff_spec(a1, initial, max) <= backoff_spec(a2, initial, max),
{
    let e1 = backoff_exponent(a1);
    let e2 = backoff_exponent(a2);
    lemma_pow2_monotone(e1, e2);
    assert(initial * pow2_spec(e1) <= initial * pow2_spec(e2)) by (nonlinear_arith)
        requires
            pow2_spec(e1) <= pow2_spec(e2),
    ;
}

/// Law: a retry decision always moves to the next attempt and stays within
/// the policy's attempt limit; a failure on a non-retriable path never
/// retries.
pub proof fn law_retry_within_limit(policy: Option<RetryPolicy>, attempt: u32)
    ensures
        connection_error_action_spec(policy, attempt) matches ErrorAction::Retry {
            current_attempt,
            next_attempt,
            max_attempts,
        } ==> current_attempt == attempt && next_attempt == attempt + 1 && next_attempt
            <= max_attempts && policy is Some,
        policy is None ==> connection_error_action_spec(policy, attempt) == (ErrorAction::Fail {
            reason: FailReason::NoRetryPolicy,
        }),
{
}

/// Law: the status classification agrees with the retriable-status set.
pub proof fn law_classification_matches_retriable(status: u16)
    ensures
        retriable_status_spec(status) <==> (if retriable_status_spec(status) {
            ErrorClassification::Transient
        } else {
            ErrorClassification::Permanent
        }) == ErrorClassification::Transient,
        policy_retriable_status(status) ==> retriable_status_spec(status),
{
}

/// Law: with a policy, an attempt is eligible for a retry exactly when it
/// is below the policy's maximum and the status is 500, 502, 503 or 504;
/// an eligible answer carries the attempt it was asked about.
pub proof fn law_retry_eligibility(p: RetryPolicy, attempt: u32, status: u16)
    ensures
        (retry_eligibility_spec(Some(p), attempt, status) is Eligible) <==> (attempt < p.max_attempts && (
        status == 500 || status == 502 || status == 503 || status == 504)),
        retry_eligibility_spec(Some(p), attempt, status) matches RetryEligibility::Eligible {
            current_attempt,
        } ==> current_attempt == attempt,
        retry_eligibility_spec(None, attempt, status) is NotEligible,
{
    crate::retry::law_policy_retries_gateway_errors(status);
}

} // verus!
