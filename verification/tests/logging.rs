use yatagarasu::proxy::logging::{
    build_replica_failover_info, build_s3_error_info, determine_circuit_breaker_action,
    determine_log_level, is_circuit_breaker_failure, is_circuit_breaker_success,
    parse_content_length, prepare_audit_data, should_extract_s3_error, complete_request,
    CircuitBreakerAction, RequestLogLevel,
};
use yatagarasu::metrics::Metrics;


// -- Structural verification tests --



#[test]
fn test_update_circuit_breaker_accessible() {
    // Verify determine_circuit_breaker_action is accessible
    let action = determine_circuit_breaker_action(200);
    assert_eq!(action, CircuitBreakerAction::RecordSuccess);
}

#[test]
fn test_extract_s3_error_accessible() {
    // Verify build_s3_error_info is accessible
    let error =
        build_s3_error_info(Some("NoSuchKey"), Some("The specified key does not exist"));
    assert!(error.has_error());
    assert_eq!(error.error_code, Some("NoSuchKey".to_string()));
}

#[test]
fn test_finalize_audit_log_accessible() {
    // Verify prepare_audit_data is accessible
    let audit = prepare_audit_data(200, 1024);
    assert_eq!(audit.status_code, 200);
    assert_eq!(audit.content_length, 1024);
}

// -- Duration calculation tests --






// -- Circuit breaker action tests --

#[test]
fn test_circuit_breaker_action_success_200() {
    let action = determine_circuit_breaker_action(200);
    assert_eq!(action, CircuitBreakerAction::RecordSuccess);
}

#[test]
fn test_circuit_breaker_action_success_204() {
    let action = determine_circuit_breaker_action(204);
    assert_eq!(action, CircuitBreakerAction::RecordSuccess);
}

#[test]
fn test_circuit_breaker_action_failure_500() {
    let action = determine_circuit_breaker_action(500);
    assert_eq!(action, CircuitBreakerAction::RecordFailure);
}

#[test]
fn test_circuit_breaker_action_failure_502() {
    let action = determine_circuit_breaker_action(502);
    assert_eq!(action, CircuitBreakerAction::RecordFailure);
}

#[test]
fn test_circuit_breaker_action_no_action_404() {
    let action = determine_circuit_breaker_action(404);
    assert_eq!(action, CircuitBreakerAction::NoAction);
}

#[test]
fn test_circuit_breaker_action_no_action_301() {
    let action = determine_circuit_breaker_action(301);
    assert_eq!(action, CircuitBreakerAction::NoAction);
}

#[test]
fn test_is_circuit_breaker_success() {
    assert!(is_circuit_breaker_success(200));
    assert!(is_circuit_breaker_success(201));
    assert!(is_circuit_breaker_success(299));
    assert!(!is_circuit_breaker_success(300));
    assert!(!is_circuit_breaker_success(404));
    assert!(!is_circuit_breaker_success(500));
}

#[test]
fn test_is_circuit_breaker_failure() {
    assert!(is_circuit_breaker_failure(500));
    assert!(is_circuit_breaker_failure(502));
    assert!(is_circuit_breaker_failure(599));
    assert!(!is_circuit_breaker_failure(200));
    assert!(!is_circuit_breaker_failure(404));
    assert!(!is_circuit_breaker_failure(499));
}

// -- S3 error extraction tests --

#[test]
fn test_s3_error_info_with_code_and_message() {
    let error = build_s3_error_info(Some("AccessDenied"), Some("Access Denied"));
    assert!(error.has_error());
    assert_eq!(error.error_code, Some("AccessDenied".to_string()));
    assert_eq!(error.error_message, Some("Access Denied".to_string()));
}

#[test]
fn test_s3_error_info_code_only() {
    let error = build_s3_error_info(Some("NoSuchKey"), None);
    assert!(error.has_error());
    assert_eq!(error.error_code, Some("NoSuchKey".to_string()));
    assert_eq!(error.error_message, None);
}

#[test]
fn test_s3_error_info_empty() {
    let error = build_s3_error_info(None, None);
    assert!(!error.has_error());
}

#[test]
fn test_should_extract_s3_error() {
    assert!(should_extract_s3_error(400));
    assert!(should_extract_s3_error(404));
    assert!(should_extract_s3_error(500));
    assert!(!should_extract_s3_error(200));
    assert!(!should_extract_s3_error(301));
    assert!(!should_extract_s3_error(399));
}

// -- Audit log tests --

#[test]
fn test_prepare_audit_data() {
    let data = prepare_audit_data(201, 2048);
    assert_eq!(data.status_code, 201);
    assert_eq!(data.content_length, 2048);
}

#[test]
fn test_parse_content_length_valid() {
    assert_eq!(parse_content_length(Some("1024")), 1024);
    assert_eq!(parse_content_length(Some("0")), 0);
    assert_eq!(parse_content_length(Some("9999999")), 9999999);
}

#[test]
fn test_parse_content_length_invalid() {
    assert_eq!(parse_content_length(Some("not-a-number")), 0);
    assert_eq!(parse_content_length(Some("")), 0);
    assert_eq!(parse_content_length(None), 0);
}

// -- Log context tests --



#[test]
fn test_build_replica_failover_info() {
    let info = build_replica_failover_info("my-bucket", "replica-1", "failover");

    assert_eq!(info.bucket, "my-bucket");
    assert_eq!(info.replica, "replica-1");
    assert_eq!(info.status, "failover");
}

// -- Log level tests --

#[test]
fn test_determine_log_level_info() {
    assert_eq!(determine_log_level(200), RequestLogLevel::Info);
    assert_eq!(determine_log_level(204), RequestLogLevel::Info);
    assert_eq!(determine_log_level(301), RequestLogLevel::Info);
    assert_eq!(determine_log_level(304), RequestLogLevel::Info);
}

#[test]
fn test_determine_log_level_warn() {
    assert_eq!(determine_log_level(400), RequestLogLevel::Warn);
    assert_eq!(determine_log_level(404), RequestLogLevel::Warn);
    assert_eq!(determine_log_level(429), RequestLogLevel::Warn);
    assert_eq!(determine_log_level(499), RequestLogLevel::Warn);
}

#[test]
fn test_determine_log_level_error() {
    assert_eq!(determine_log_level(500), RequestLogLevel::Error);
    assert_eq!(determine_log_level(502), RequestLogLevel::Error);
    assert_eq!(determine_log_level(503), RequestLogLevel::Error);
    assert_eq!(determine_log_level(599), RequestLogLevel::Error);
}

// -- Metrics preparation tests --



#[test]
fn completion_counts_request_and_classifies_status() {
    let mut metrics = Metrics::new();
    metrics.increment_active_connections();
    let done = complete_request(
        &mut metrics,
        Some(503),
        "GET",
        12_000,
        Some("products"),
        true,
        Some("SlowDown"),
        Some("Reduce your request rate"),
    );
    assert_eq!(done.status_code, 503);
    assert_eq!(done.breaker_action, CircuitBreakerAction::RecordFailure);
    assert_eq!(done.log_level, RequestLogLevel::Error);
    assert_eq!(done.s3_error.error_code.as_deref(), Some("SlowDown"));
    assert_eq!(done.s3_error.error_message.as_deref(), Some("Reduce your request rate"));
    assert_eq!(metrics.get_status_count(503), 1);
    assert_eq!(metrics.get_method_count("GET"), 1);
    assert_eq!(metrics.get_bucket_count("products"), 1);
    assert_eq!(metrics.get_active_connections(), 0);
}

#[test]
fn completion_without_written_answer_counts_500() {
    let mut metrics = Metrics::new();
    let done = complete_request(&mut metrics, None, "HEAD", 1, None, true, Some("X"), None);
    assert_eq!(done.status_code, 500);
    assert_eq!(done.breaker_action, CircuitBreakerAction::NoAction);
    assert_eq!(metrics.get_status_count(500), 1);

    let ok = complete_request(&mut metrics, Some(200), "GET", 1, Some("b"), true, Some("X"), None);
    assert_eq!(ok.breaker_action, CircuitBreakerAction::RecordSuccess);
    assert!(ok.s3_error.error_code.is_none());
    assert_eq!(ok.log_level, RequestLogLevel::Info);

    let no_breaker = complete_request(&mut metrics, Some(502), "GET", 1, Some("b"), false, None, None);
    assert_eq!(no_breaker.breaker_action, CircuitBreakerAction::NoAction);
}
