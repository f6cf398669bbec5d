use yatagarasu::circuit_breaker::CircuitState;
use yatagarasu::metrics::Metrics;
use yatagarasu::proxy::routing_auth::{
    build_circuit_breaker_error_body, build_opa_input, build_rate_limit_error_body,
    check_circuit_breaker, check_rate_limits, record_auth_failure, record_rate_limit_exceeded,
    BreakerGate, CircuitBreakerResult, RateLimitResult,
};
use yatagarasu::rate_limit::{RateLimitError, RateLimitManager};

#[test]
fn test_check_circuit_breaker_not_configured() {
    let breakers: Vec<(String, BreakerGate)> = Vec::new();
    let result = check_circuit_breaker(&breakers, "test-bucket");
    assert!(matches!(
        result,
        CircuitBreakerResult::Allowed {
            is_half_open: false
        }
    ));
}

#[test]
fn test_check_circuit_breaker_closed() {
    let mut breakers = Vec::new();
    // A fresh breaker is closed and lets requests through.
    let cb = BreakerGate { allows_request: true, state: CircuitState::Closed };
    breakers.push(("test-bucket".to_string(), cb));

    let result = check_circuit_breaker(&breakers, "test-bucket");
    assert!(matches!(
        result,
        CircuitBreakerResult::Allowed {
            is_half_open: false
        }
    ));
}

#[test]
fn test_check_circuit_breaker_open() {
    let mut breakers = Vec::new();
    // A breaker opened by a failure refuses requests.
    let cb = BreakerGate { allows_request: false, state: CircuitState::Open };
    breakers.push(("test-bucket".to_string(), cb));

    let result = check_circuit_breaker(&breakers, "test-bucket");
    assert!(matches!(result, CircuitBreakerResult::Rejected { .. }));
}

#[test]
fn check_circuit_breaker_half_open_is_marked() {
    let breakers = vec![(
        "b".to_string(),
        BreakerGate { allows_request: true, state: CircuitState::HalfOpen },
    )];
    let result = check_circuit_breaker(&breakers, "b");
    assert!(matches!(result, CircuitBreakerResult::Allowed { is_half_open: true }));
    let other = check_circuit_breaker(&breakers, "other");
    assert!(matches!(other, CircuitBreakerResult::Allowed { is_half_open: false }));
}

#[test]
fn test_build_opa_input() {
    let input = build_opa_input(
        None,
        "products",
        "/products/image.jpg",
        "GET",
        Some("1.2.3.4".to_string()),
    );

    assert_eq!(input.bucket(), "products");
    assert_eq!(input.path(), "/products/image.jpg");
    assert_eq!(input.method(), "GET");
    assert_eq!(input.client_ip(), Some("1.2.3.4"));
    assert_eq!(input.jwt_claims(), &serde_json::Value::Object(serde_json::Map::new()));
}

#[test]
fn test_build_circuit_breaker_error_body() {
    let body = build_circuit_breaker_error_body("products");
    let parsed: serde_json::Value = serde_json::from_str(&body).unwrap();
    assert_eq!(parsed["error"], "Service Temporarily Unavailable");
    assert_eq!(parsed["bucket"], "products");
    assert_eq!(parsed["status"], 503);
}

#[test]
fn circuit_breaker_error_body_exact_text() {
    assert_eq!(
        build_circuit_breaker_error_body("products"),
        "{\"bucket\":\"products\",\"error\":\"Service Temporarily Unavailable\",\"message\":\"S3 backend is experiencing issues. Circuit breaker is open.\",\"status\":503}"
    );
}

#[test]
fn record_helpers_update_metrics() {
    let mut metrics = Metrics::new();
    record_rate_limit_exceeded(&mut metrics, "products");
    assert_eq!(metrics.get_status_count(429), 1);
    record_auth_failure(&mut metrics, "expired", 401);
    assert_eq!(metrics.get_auth_failure_count(), 1);
    assert_eq!(metrics.get_auth_error_count("expired"), 1);
    assert_eq!(metrics.get_status_count(401), 1);
}

#[test]
fn test_check_rate_limits_no_manager() {
    let result = check_rate_limits(&mut None, "test-bucket", None);
    assert!(matches!(result, RateLimitResult::Allowed));
}

#[test]
fn test_check_rate_limits_reports_bucket_and_limit() {
    let mut manager = RateLimitManager::new(None, Some(1));
    manager.add_bucket_limiter("products".to_string(), 5);
    let mut slot = Some(manager);
    let first = check_rate_limits(&mut slot, "products", Some("10.1.1.1"));
    assert!(matches!(first, RateLimitResult::Allowed));
    match check_rate_limits(&mut slot, "products", Some("10.1.1.1")) {
        RateLimitResult::Limited { bucket_name, error } => {
            assert_eq!(bucket_name, "products");
            assert_eq!(error, RateLimitError::PerIp("10.1.1.1".to_string()));
        }
        RateLimitResult::Allowed => panic!("second request from the address should be limited"),
    }
    assert_eq!(slot.as_ref().map(|m| m.tracked_ip_count()), Some(1));
}

#[test]
fn test_build_rate_limit_error_body() {
    let body = build_rate_limit_error_body(&RateLimitError::PerBucket("products".to_string()));
    assert_eq!(
        body,
        "{\"error\":\"Too Many Requests\",\"message\":\"Rate limit exceeded for bucket: products\",\"status\":429}"
    );
    let global = build_rate_limit_error_body(&RateLimitError::Global);
    assert!(global.contains("\"message\":\"Global rate limit exceeded\""));
}
