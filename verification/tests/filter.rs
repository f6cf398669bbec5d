use yatagarasu::metrics::Metrics;
use yatagarasu::proxy::filter::{AuthCheck, RequestFilter, StageReport};
use yatagarasu::proxy::request_filter::{
    decide_request, pipeline_step, stage_at_position, AuthorizationResult, CacheLookupResult,
    PipelineAction, RequestStage, ResourceCheckResult, RoutingResult, SpecialEndpointResult,
    StageOutcome,
};
use yatagarasu::proxy::routing_auth::{CircuitBreakerResult, RateLimitResult};
use yatagarasu::proxy::{answer_resource_check, MethodCheck};
use yatagarasu::rate_limit::RateLimitError;

fn security_passed(method: &str) -> StageReport {
    StageReport::Security {
        method: method.to_string(),
        check: MethodCheck::Allowed,
        violation: None,
        metrics_enabled: true,
    }
}

fn routed(bucket: &str) -> StageReport {
    StageReport::Routing(RoutingResult::Routed {
        bucket_name: bucket.to_string(),
        object_key: "a.jpg".to_string(),
    })
}

#[test]
fn test_decide_request_first_stop_answers() {
    assert_eq!(decide_request(&vec![]), PipelineAction::Run(RequestStage::ResourceCheck));
    let outcomes = vec![
        StageOutcome::Continue,
        StageOutcome::Continue,
        StageOutcome::Handled { status_code: 200 },
        StageOutcome::Error { status_code: 404, message: String::new() },
    ];
    assert_eq!(decide_request(&outcomes), PipelineAction::Respond(RequestStage::SpecialEndpoint));
    let passing = vec![StageOutcome::Continue; 4];
    assert_eq!(decide_request(&passing), PipelineAction::Run(RequestStage::RateLimiting));
    let all = vec![StageOutcome::Continue; 9];
    assert_eq!(decide_request(&all), PipelineAction::Forward);
}

#[test]
fn test_pipeline_step_and_stage_positions() {
    assert_eq!(stage_at_position(0), RequestStage::ResourceCheck);
    assert_eq!(stage_at_position(8), RequestStage::CacheLookup);
    assert_eq!(stage_at_position(9), RequestStage::UpstreamForward);
    assert_eq!(
        pipeline_step(RequestStage::Routing, &StageOutcome::Continue),
        PipelineAction::Run(RequestStage::RateLimiting)
    );
    assert_eq!(
        pipeline_step(RequestStage::CacheLookup, &StageOutcome::Continue),
        PipelineAction::Forward
    );
    assert_eq!(
        pipeline_step(RequestStage::RateLimiting, &StageOutcome::Error { status_code: 429, message: String::new() }),
        PipelineAction::Respond(RequestStage::RateLimiting)
    );
}

#[test]
fn test_filter_forwards_request_that_passes_every_stage() {
    let mut metrics = Metrics::new();
    let mut filter = RequestFilter::new();
    assert_eq!(filter.next_action(), PipelineAction::Run(RequestStage::ResourceCheck));
    let reports = vec![
        StageReport::Resources(ResourceCheckResult::Available),
        security_passed("GET"),
        StageReport::Special { endpoint: SpecialEndpointResult::NotSpecial, status: 200 },
        routed("products"),
        StageReport::RateLimit(RateLimitResult::Allowed),
        StageReport::Breaker(CircuitBreakerResult::Allowed { is_half_open: false }),
        StageReport::Authentication(AuthCheck::Bypassed),
        StageReport::Authorization(AuthorizationResult::NotConfigured),
    ];
    let expected_next = [
        RequestStage::SecurityValidation,
        RequestStage::SpecialEndpoint,
        RequestStage::Routing,
        RequestStage::RateLimiting,
        RequestStage::CircuitBreaker,
        RequestStage::Authentication,
        RequestStage::Authorization,
        RequestStage::CacheLookup,
    ];
    for (report, next) in reports.into_iter().zip(expected_next.iter()) {
        assert_eq!(filter.record(report, &mut metrics), PipelineAction::Run(*next));
    }
    assert_eq!(
        filter.record(StageReport::Cache(CacheLookupResult::Miss), &mut metrics),
        PipelineAction::Forward
    );
    assert!(filter.answer().is_none());
    assert_eq!(metrics.get_active_connections(), 1);
    assert_eq!(metrics.get_request_count(), 1);
    assert_eq!(metrics.get_method_count("GET"), 1);
    assert_eq!(metrics.get_bucket_count("products"), 1);
    assert_eq!(metrics.get_auth_bypassed_count(), 1);
}

#[test]
fn test_filter_first_refusal_answers_and_skips_the_rest() {
    let mut metrics = Metrics::new();
    let mut filter = RequestFilter::new();
    filter.record(StageReport::Resources(ResourceCheckResult::Available), &mut metrics);
    filter.record(security_passed("GET"), &mut metrics);
    filter.record(StageReport::Special { endpoint: SpecialEndpointResult::NotSpecial, status: 200 }, &mut metrics);
    filter.record(routed("products"), &mut metrics);
    let action = filter.record(
        StageReport::RateLimit(RateLimitResult::Limited {
            bucket_name: "products".to_string(),
            error: RateLimitError::Global,
        }),
        &mut metrics,
    );
    assert_eq!(action, PipelineAction::Respond(RequestStage::RateLimiting));
    match filter.answer() {
        Some(StageOutcome::Error { status_code, message }) => {
            assert_eq!(*status_code, 429);
            assert_eq!(
                message,
                "{\"error\":\"Too Many Requests\",\"message\":\"Global rate limit exceeded\",\"status\":429}"
            );
        }
        other => panic!("unexpected answer {:?}", other),
    }
    assert_eq!(metrics.get_status_count(429), 1);

    // A later stage no longer runs: its report changes nothing.
    let after = filter.record(
        StageReport::Breaker(CircuitBreakerResult::Allowed { is_half_open: false }),
        &mut metrics,
    );
    assert_eq!(after, PipelineAction::Respond(RequestStage::RateLimiting));
    assert_eq!(metrics.get_status_count(429), 1);
}

#[test]
fn test_filter_ignores_report_of_wrong_stage() {
    let mut metrics = Metrics::new();
    let mut filter = RequestFilter::new();
    let action = filter.record(routed("products"), &mut metrics);
    assert_eq!(action, PipelineAction::Run(RequestStage::ResourceCheck));
    assert_eq!(metrics.get_bucket_count("products"), 0);
}

#[test]
fn test_filter_concurrency_limit_refusal() {
    let mut metrics = Metrics::new();
    let mut filter = RequestFilter::new();
    let action = filter.record(
        StageReport::Resources(ResourceCheckResult::ConcurrencyLimitReached),
        &mut metrics,
    );
    assert_eq!(action, PipelineAction::Respond(RequestStage::ResourceCheck));
    assert_eq!(metrics.get_concurrency_limit_rejections(), 1);
    assert_eq!(metrics.get_active_connections(), 0);
    match filter.answer() {
        Some(StageOutcome::Error { status_code, message }) => {
            assert_eq!(*status_code, 503);
            assert!(message.contains("maximum concurrent request limit"));
        }
        other => panic!("unexpected answer {:?}", other),
    }
}

#[test]
fn test_filter_method_refusal_and_preflight() {
    let mut metrics = Metrics::new();
    let mut refused = RequestFilter::new();
    refused.record(StageReport::Resources(ResourceCheckResult::Available), &mut metrics);
    let action = refused.record(
        StageReport::Security {
            method: "DELETE".to_string(),
            check: MethodCheck::NotAllowed,
            violation: None,
            metrics_enabled: true,
        },
        &mut metrics,
    );
    assert_eq!(action, PipelineAction::Respond(RequestStage::SecurityValidation));
    assert_eq!(metrics.get_status_count(405), 1);
    assert_eq!(metrics.get_request_count(), 0);

    let mut preflight = RequestFilter::new();
    preflight.record(StageReport::Resources(ResourceCheckResult::Available), &mut metrics);
    preflight.record(
        StageReport::Security {
            method: "OPTIONS".to_string(),
            check: MethodCheck::Preflight,
            violation: None,
            metrics_enabled: true,
        },
        &mut metrics,
    );
    match preflight.answer() {
        Some(StageOutcome::Handled { status_code }) => assert_eq!(*status_code, 200),
        other => panic!("unexpected answer {:?}", other),
    }
    assert_eq!(metrics.get_status_count(200), 1);
}

#[test]
fn test_filter_routing_miss_and_auth_failures() {
    let mut metrics = Metrics::new();
    let mut not_found = RequestFilter::new();
    not_found.record(StageReport::Resources(ResourceCheckResult::Available), &mut metrics);
    not_found.record(security_passed("GET"), &mut metrics);
    not_found.record(StageReport::Special { endpoint: SpecialEndpointResult::NotSpecial, status: 200 }, &mut metrics);
    let action = not_found.record(StageReport::Routing(RoutingResult::NotFound), &mut metrics);
    assert_eq!(action, PipelineAction::Respond(RequestStage::Routing));
    assert_eq!(metrics.get_status_count(404), 1);

    for (check, status, kind) in [(AuthCheck::MissingToken, 401u16, "missing"), (AuthCheck::InvalidToken, 403, "invalid")] {
        let mut filter = RequestFilter::new();
        filter.record(StageReport::Resources(ResourceCheckResult::Available), &mut metrics);
        filter.record(security_passed("GET"), &mut metrics);
        filter.record(StageReport::Special { endpoint: SpecialEndpointResult::NotSpecial, status: 200 }, &mut metrics);
        filter.record(routed("private"), &mut metrics);
        filter.record(StageReport::RateLimit(RateLimitResult::Allowed), &mut metrics);
        filter.record(StageReport::Breaker(CircuitBreakerResult::Allowed { is_half_open: false }), &mut metrics);
        let action = filter.record(StageReport::Authentication(check), &mut metrics);
        assert_eq!(action, PipelineAction::Respond(RequestStage::Authentication));
        assert_eq!(metrics.get_status_count(status), 1);
        assert_eq!(metrics.get_auth_error_count(kind), 1);
    }
    assert_eq!(metrics.get_auth_failure_count(), 2);
}

#[test]
fn test_filter_special_endpoint_and_cache_hit() {
    let mut metrics = Metrics::new();
    let mut health = RequestFilter::new();
    health.record(StageReport::Resources(ResourceCheckResult::Available), &mut metrics);
    health.record(security_passed("GET"), &mut metrics);
    let action = health.record(
        StageReport::Special { endpoint: SpecialEndpointResult::HealthCheck, status: 200 },
        &mut metrics,
    );
    assert_eq!(action, PipelineAction::Respond(RequestStage::SpecialEndpoint));

    let mut cached = RequestFilter::new();
    let reports = vec![
        StageReport::Resources(ResourceCheckResult::Available),
        security_passed("GET"),
        StageReport::Special { endpoint: SpecialEndpointResult::NotSpecial, status: 200 },
        routed("products"),
        StageReport::RateLimit(RateLimitResult::Allowed),
        StageReport::Breaker(CircuitBreakerResult::Allowed { is_half_open: false }),
        StageReport::Authentication(AuthCheck::Authenticated),
        StageReport::Authorization(AuthorizationResult::Allowed),
        StageReport::Cache(CacheLookupResult::Hit),
    ];
    let mut last = PipelineAction::Forward;
    for report in reports {
        last = cached.record(report, &mut metrics);
    }
    assert_eq!(last, PipelineAction::Respond(RequestStage::CacheLookup));
    assert_eq!(metrics.get_status_count(200), 2);
}

#[test]
fn test_answer_resource_check() {
    let mut metrics = Metrics::new();
    assert!(answer_resource_check(ResourceCheckResult::Available, &mut metrics).is_none());
    let busy = answer_resource_check(ResourceCheckResult::ConcurrencyLimitReached, &mut metrics).expect("answered");
    assert_eq!(busy.status, 503);
    assert_eq!(
        busy.body,
        "{\"error\":\"Service Temporarily Unavailable\",\"message\":\"Server has reached maximum concurrent request limit. Please retry after 5 seconds.\",\"status\":503}"
    );
    assert_eq!(
        busy.headers,
        vec![
            ("Content-Type".to_string(), "application/json".to_string()),
            ("Retry-After".to_string(), "5".to_string()),
            ("Content-Length".to_string(), busy.body.len().to_string()),
        ]
    );
    assert_eq!(metrics.get_concurrency_limit_rejections(), 1);
    let loaded = answer_resource_check(ResourceCheckResult::ResourceExhausted, &mut metrics).expect("answered");
    assert_eq!(loaded.headers[1], ("Retry-After".to_string(), "10".to_string()));
    assert_eq!(metrics.get_concurrency_limit_rejections(), 1);
}
