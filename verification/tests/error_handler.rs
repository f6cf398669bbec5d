use yatagarasu::proxy::error_handler::{
    calculate_backoff, calculate_policy_backoff, can_retry_request, check_retry_eligibility,
    classify_status, determine_connection_error_action, determine_proxy_error_action,
    is_retriable_status, ErrorAction, ErrorClassification, FailReason, ProxyErrorContext,
    RetryEligibility,
};
use yatagarasu::retry::RetryPolicy;


fn test_retry_policy() -> RetryPolicy {
    RetryPolicy {
        max_attempts: 3,
        initial_backoff_ms: 100,
        max_backoff_ms: 1000,
    }
}

#[test]
fn test_error_handler_module_exists() {
    let _ = ErrorAction::Fail {
        reason: FailReason::NoRetryPolicy,
    };
    let _ = RetryEligibility::Eligible { current_attempt: 1 };
    let _ = ErrorClassification::Transient;
}

// ========== Retry Eligibility Tests ==========

#[test]
fn test_check_retry_eligibility_no_policy() {
    let result = check_retry_eligibility(None, 1, 502);

    assert_eq!(
        result,
        RetryEligibility::NotEligible {
            reason: FailReason::NoRetryPolicy
        }
    );
}

#[test]
fn test_check_retry_eligibility_first_attempt() {
    let policy = test_retry_policy();
    let result = check_retry_eligibility(Some(&policy), 1, 502);

    assert_eq!(result, RetryEligibility::Eligible { current_attempt: 1 });
}

#[test]
fn test_check_retry_eligibility_attempts_exhausted() {
    let policy = test_retry_policy();
    let result = check_retry_eligibility(Some(&policy), 3, 502);

    assert_eq!(
        result,
        RetryEligibility::NotEligible {
            reason: FailReason::AttemptsExhausted {
                attempts: 3,
                max_attempts: 3,
            }
        }
    );
}

// ========== Connection Error Tests ==========

#[test]
fn test_determine_connection_error_action_retry() {
    let policy = test_retry_policy();
    let action = determine_connection_error_action(Some(&policy), 1);

    assert_eq!(
        action,
        ErrorAction::Retry {
            current_attempt: 1,
            next_attempt: 2,
            max_attempts: 3,
        }
    );
}

#[test]
fn test_determine_connection_error_action_no_policy() {
    let action = determine_connection_error_action(None, 1);

    assert_eq!(
        action,
        ErrorAction::Fail {
            reason: FailReason::NoRetryPolicy
        }
    );
}

#[test]
fn test_determine_connection_error_action_exhausted() {
    let policy = test_retry_policy();
    let action = determine_connection_error_action(Some(&policy), 3);

    assert_eq!(
        action,
        ErrorAction::Fail {
            reason: FailReason::AttemptsExhausted {
                attempts: 3,
                max_attempts: 3,
            }
        }
    );
}

// ========== Proxy Error Tests ==========

#[test]
fn test_determine_proxy_error_action_retry() {
    let policy = test_retry_policy();
    let context = ProxyErrorContext {
        client_reused: true,
        buffer_truncated: false,
    };
    let action = determine_proxy_error_action(Some(&policy), 1, &context);

    assert_eq!(
        action,
        ErrorAction::Retry {
            current_attempt: 1,
            next_attempt: 2,
            max_attempts: 3,
        }
    );
}

#[test]
fn test_determine_proxy_error_action_client_not_reusable() {
    let policy = test_retry_policy();
    let context = ProxyErrorContext {
        client_reused: false,
        buffer_truncated: false,
    };
    let action = determine_proxy_error_action(Some(&policy), 1, &context);

    assert_eq!(
        action,
        ErrorAction::Fail {
            reason: FailReason::ClientNotReusable
        }
    );
}

#[test]
fn test_determine_proxy_error_action_buffer_truncated() {
    let policy = test_retry_policy();
    let context = ProxyErrorContext {
        client_reused: true,
        buffer_truncated: true,
    };
    let action = determine_proxy_error_action(Some(&policy), 1, &context);

    assert_eq!(
        action,
        ErrorAction::Fail {
            reason: FailReason::BufferTruncated
        }
    );
}

// ========== Can Retry Tests ==========

#[test]
fn test_can_retry_request_all_conditions_met() {
    assert!(can_retry_request(true, false));
}

#[test]
fn test_can_retry_request_client_not_reusable() {
    assert!(!can_retry_request(false, false));
}

#[test]
fn test_can_retry_request_buffer_truncated() {
    assert!(!can_retry_request(true, true));
}

// ========== Status Code Tests ==========

#[test]
fn test_is_retriable_status_502() {
    assert!(is_retriable_status(502));
}

#[test]
fn test_is_retriable_status_503() {
    assert!(is_retriable_status(503));
}

#[test]
fn test_is_retriable_status_429() {
    assert!(is_retriable_status(429));
}

#[test]
fn test_is_retriable_status_404_not_retriable() {
    assert!(!is_retriable_status(404));
}

#[test]
fn test_is_retriable_status_200_not_retriable() {
    assert!(!is_retriable_status(200));
}

#[test]
fn test_classify_status_transient() {
    assert_eq!(classify_status(502), ErrorClassification::Transient);
    assert_eq!(classify_status(503), ErrorClassification::Transient);
    assert_eq!(classify_status(429), ErrorClassification::Transient);
}

#[test]
fn test_classify_status_permanent() {
    assert_eq!(classify_status(404), ErrorClassification::Permanent);
    assert_eq!(classify_status(403), ErrorClassification::Permanent);
    assert_eq!(classify_status(400), ErrorClassification::Permanent);
}

// ========== Backoff Tests ==========

#[test]
fn test_calculate_backoff_first_attempt() {
    let backoff = calculate_backoff(1, 100, 1000);
    assert_eq!(backoff, 100); // 100 * 2^0 = 100
}

#[test]
fn test_calculate_backoff_second_attempt() {
    let backoff = calculate_backoff(2, 100, 1000);
    assert_eq!(backoff, 200); // 100 * 2^1 = 200
}

#[test]
fn test_calculate_backoff_third_attempt() {
    let backoff = calculate_backoff(3, 100, 1000);
    assert_eq!(backoff, 400); // 100 * 2^2 = 400
}

#[test]
fn test_calculate_backoff_capped_at_max() {
    let backoff = calculate_backoff(10, 100, 1000);
    assert_eq!(backoff, 1000); // Should be capped at max
}

#[test]
fn test_calculate_policy_backoff() {
    let policy = test_retry_policy();
    let backoff = calculate_policy_backoff(&policy, 2);
    assert_eq!(backoff, 200); // 100 * 2^1 = 200
}
