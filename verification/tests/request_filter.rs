use std::time::Duration;
use yatagarasu::proxy::request_filter::{
    classify_special_endpoint, is_safe_method, is_special_endpoint, requires_authentication,
    AuthenticationResult, AuthorizationResult, CacheLookupResult, CircuitBreakerResult,
    RateLimitResult, RequestFilterOutcome, RequestStage, ResourceCheckResult, RoutingResult,
    SpecialEndpointResult, StageOutcome,
};

#[test]
fn test_rate_limit_allowed() {
    let result = RateLimitResult::allowed();
    assert!(result.is_allowed());
    assert!(result.as_outcome().should_continue());
}

#[test]
fn test_rate_limit_limited() {
    let result = RateLimitResult::limited(60);
    assert!(!result.is_allowed());
    assert!(!result.as_outcome().should_continue());
}


// -- Structural verification tests --

#[test]
fn test_request_filter_module_exists() {
    let _ = RequestStage::ResourceCheck;
    let _ = StageOutcome::Continue;
    let _ = ResourceCheckResult::Available;
    let _ = RoutingResult::NotFound;
}


// -- Request stage tests --

#[test]
fn test_request_stage_sequence() {
    let mut stage = RequestStage::ResourceCheck;
    let mut count = 1;

    while let Some(next) = stage.next() {
        stage = next;
        count += 1;
    }

    // Should have 10 stages total
    assert_eq!(count, 10);
    assert_eq!(stage, RequestStage::UpstreamForward);
}

#[test]
fn test_request_stage_names() {
    assert_eq!(RequestStage::ResourceCheck.name(), "resource_check");
    assert_eq!(
        RequestStage::SecurityValidation.name(),
        "security_validation"
    );
    assert_eq!(RequestStage::Authentication.name(), "authentication");
    assert_eq!(RequestStage::CacheLookup.name(), "cache_lookup");
}

// -- Stage outcome tests --

#[test]
fn test_stage_outcome_continue() {
    let outcome = StageOutcome::continue_processing();
    assert!(outcome.should_continue());
    assert!(!outcome.is_handled());
}

#[test]
fn test_stage_outcome_handled() {
    let outcome = StageOutcome::handled(200);
    assert!(!outcome.should_continue());
    assert!(outcome.is_handled());
}

#[test]
fn test_stage_outcome_error() {
    let outcome = StageOutcome::error(404, "Not found");
    assert!(!outcome.should_continue());
    assert!(outcome.is_handled());
}

// -- Resource check tests --

#[test]
fn test_resource_check_available() {
    let result = ResourceCheckResult::Available;
    assert!(result.retry_after().is_none());
    assert!(result.as_outcome().should_continue());
}

#[test]
fn test_resource_check_concurrency_limit() {
    let result = ResourceCheckResult::ConcurrencyLimitReached;
    assert_eq!(result.retry_after(), Some(Duration::from_secs(5)));
    assert!(!result.as_outcome().should_continue());
}

#[test]
fn test_resource_check_exhausted() {
    let result = ResourceCheckResult::ResourceExhausted;
    assert_eq!(result.retry_after(), Some(Duration::from_secs(10)));
    assert!(!result.as_outcome().should_continue());
}

// -- Routing tests --

#[test]
fn test_routing_result_routed() {
    let result = RoutingResult::routed("my-bucket", "path/to/file.jpg");
    assert!(result.is_routed());
    assert_eq!(result.bucket_name(), Some("my-bucket"));
    assert_eq!(result.object_key(), Some("path/to/file.jpg"));
}

#[test]
fn test_routing_result_not_found() {
    let result = RoutingResult::not_found();
    assert!(!result.is_routed());
    assert!(result.bucket_name().is_none());
    assert!(result.object_key().is_none());
}

// -- Rate limit tests --



// -- Circuit breaker tests --

#[test]
fn test_circuit_breaker_closed() {
    let result = CircuitBreakerResult::Closed;
    assert!(result.should_proceed());
    assert!(result.as_outcome().should_continue());
}

#[test]
fn test_circuit_breaker_open() {
    let result = CircuitBreakerResult::Open;
    assert!(!result.should_proceed());
    assert!(!result.as_outcome().should_continue());
}

#[test]
fn test_circuit_breaker_half_open() {
    let result = CircuitBreakerResult::HalfOpen;
    assert!(result.should_proceed());
    assert!(result.as_outcome().should_continue());
}

// -- Authentication tests --

#[test]
fn test_authentication_success() {
    let result = AuthenticationResult::authenticated(
        Some("user123".to_string()),
        vec![("role".to_string(), "admin".to_string())],
    );
    assert!(result.is_success());
    assert!(result.as_outcome().should_continue());
}

#[test]
fn test_authentication_not_required() {
    let result = AuthenticationResult::not_required();
    assert!(result.is_success());
    assert!(result.as_outcome().should_continue());
}

#[test]
fn test_authentication_failed() {
    let result = AuthenticationResult::failed("Invalid token");
    assert!(!result.is_success());
    assert!(!result.as_outcome().should_continue());
}

// -- Authorization tests --

#[test]
fn test_authorization_allowed() {
    let result = AuthorizationResult::allowed();
    assert!(result.is_allowed());
    assert!(result.as_outcome().should_continue());
}

#[test]
fn test_authorization_denied() {
    let result = AuthorizationResult::denied("Access denied");
    assert!(!result.is_allowed());
    assert!(!result.as_outcome().should_continue());
}

#[test]
fn test_authorization_not_configured() {
    let result = AuthorizationResult::not_configured();
    assert!(result.is_allowed());
    assert!(result.as_outcome().should_continue());
}

// -- Cache lookup tests --

#[test]
fn test_cache_lookup_hit() {
    let result = CacheLookupResult::Hit;
    assert!(result.can_serve_immediately());
    assert!(!result.should_fetch_upstream());
}

#[test]
fn test_cache_lookup_miss() {
    let result = CacheLookupResult::Miss;
    assert!(!result.can_serve_immediately());
    assert!(result.should_fetch_upstream());
}

#[test]
fn test_cache_lookup_not_modified() {
    let result = CacheLookupResult::NotModified;
    assert!(result.can_serve_immediately());
    assert!(!result.should_fetch_upstream());
}

// -- Request filter outcome tests --

#[test]
fn test_request_filter_outcome_handled() {
    let outcome = RequestFilterOutcome::Handled;
    assert!(outcome.as_bool());
}

#[test]
fn test_request_filter_outcome_continue() {
    let outcome = RequestFilterOutcome::ContinueToUpstream;
    assert!(!outcome.as_bool());
}

// -- Helper function tests --

#[test]
fn test_is_special_endpoint() {
    // Health endpoints
    assert!(is_special_endpoint("/health"));
    assert!(is_special_endpoint("/healthz"));
    assert!(is_special_endpoint("/ready"));
    // Metrics endpoint
    assert!(is_special_endpoint("/metrics"));
    // Admin endpoints
    assert!(is_special_endpoint("/admin/reload"));
    assert!(is_special_endpoint("/admin/cache/purge"));
    assert!(is_special_endpoint("/admin/cache/purge/bucket"));
    assert!(is_special_endpoint(
        "/admin/cache/purge/bucket/path/to/file"
    ));
    // Non-special endpoints
    assert!(!is_special_endpoint("/bucket/file.jpg"));
    assert!(!is_special_endpoint("/api/v1/data"));
    assert!(!is_special_endpoint("/admin/other"));
}

#[test]
fn test_classify_special_endpoint() {
    // Health checks
    assert_eq!(
        classify_special_endpoint("/health"),
        SpecialEndpointResult::HealthCheck
    );
    assert_eq!(
        classify_special_endpoint("/healthz"),
        SpecialEndpointResult::HealthCheck
    );
    assert_eq!(
        classify_special_endpoint("/ready"),
        SpecialEndpointResult::HealthCheck
    );
    // Metrics
    assert_eq!(
        classify_special_endpoint("/metrics"),
        SpecialEndpointResult::Metrics
    );
    // Cache purge (global and bucket-level)
    assert_eq!(
        classify_special_endpoint("/admin/cache/purge"),
        SpecialEndpointResult::CachePurge
    );
    assert_eq!(
        classify_special_endpoint("/admin/cache/purge/bucket"),
        SpecialEndpointResult::CachePurge
    );
    assert_eq!(
        classify_special_endpoint("/admin/cache/purge/bucket/path/to/file"),
        SpecialEndpointResult::CachePurge
    );
    // Config reload
    assert_eq!(
        classify_special_endpoint("/admin/reload"),
        SpecialEndpointResult::ConfigReload
    );
    // Non-special
    assert_eq!(
        classify_special_endpoint("/other"),
        SpecialEndpointResult::NotSpecial
    );
}

#[test]
fn test_is_safe_method() {
    assert!(is_safe_method("GET"));
    assert!(is_safe_method("HEAD"));
    assert!(is_safe_method("OPTIONS"));
    assert!(is_safe_method("get")); // Case insensitive
    assert!(!is_safe_method("POST"));
    assert!(!is_safe_method("PUT"));
    assert!(!is_safe_method("DELETE"));
}

#[test]
fn test_requires_authentication() {
    assert!(requires_authentication(Some("secret")));
    assert!(!requires_authentication(None));
}
