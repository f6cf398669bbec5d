//! The request filter as a state machine: the caller runs the stage that
//! the filter names, reports what that stage found, and the filter counts
//! the report in the metrics and names the next step. The first stage that
//! ends the request answers it; the later stages never run.

use vstd::prelude::*;
use crate::json::{build_error_body, error_body};
use crate::labels::{label_increment, wrap_inc};
use crate::metrics::{Metrics, MetricsView};
use crate::proxy::{method_not_allowed_body, method_not_allowed_message, resource_refusal_message, MethodCheck};
use crate::proxy::request_filter::{
    decide_request, first_stop, pipeline_decision, stage_count, AuthorizationResult, CacheLookupResult, PipelineAction,
    RequestStage, ResourceCheckResult, RoutingResult, SpecialEndpointResult, StageOutcome,
};
use crate::proxy::routing_auth::{
    build_circuit_breaker_error_body, build_rate_limit_error_body, circuit_breaker_body, record_rate_limit_exceeded,
    with_status, CircuitBreakerResult, RateLimitResult,
};
use crate::proxy::security::{after_violation, SecurityViolation};
use crate::rate_limit::rate_limit_message;

verus! {

/// What the authentication stage found for a routed request.
#[derive(Debug, Clone, Copy, PartialEq, Eq, Structural)]
pub enum AuthCheck {
    /// The bucket is public: no token is asked for.
    Bypassed,
    /// A valid token was presented.
    Authenticated,
    /// The bucket asks for a token and none was presented: 401.
    MissingToken,
    /// The token or its claims were refused: 403.
    InvalidToken,
}

/// What one stage of the request filter found.
#[derive(Debug)]
pub enum StageReport {
    /// The resource check: concurrency limit and system load.
    Resources(ResourceCheckResult),
    /// The read-only gate and the security checks, with whether request
    /// metrics are collected.
    Security {
        method: String,
        check: MethodCheck,
        violation: Option<SecurityViolation>,
        metrics_enabled: bool,
    },
    /// A special endpoint and the status its handler answered with.
    Special { endpoint: SpecialEndpointResult, status: u16 },
    /// Routing to a bucket.
    Routing(RoutingResult),
    /// The rate limits.
    RateLimit(RateLimitResult),
    /// The bucket's circuit breaker.
    Breaker(CircuitBreakerResult),
    /// JWT authentication.
    Authentication(AuthCheck),
    /// Authorization.
    Authorization(AuthorizationResult),
    /// The cache lookup.
    Cache(CacheLookupResult),
}

/// The stage a report belongs to.
pub open spec fn report_stage(r: StageReport) -> RequestStage {
    match r {
        StageReport::Resources(_) => RequestStage::ResourceCheck,
        StageReport::Security { .. } => RequestStage::SecurityValidation,
        StageReport::Special { .. } => RequestStage::SpecialEndpoint,
        StageReport::Routing(_) => RequestStage::Routing,
        StageReport::RateLimit(_) => RequestStage::RateLimiting,
        StageReport::Breaker(_) => RequestStage::CircuitBreaker,
        StageReport::Authentication(_) => RequestStage::Authentication,
        StageReport::Authorization(_) => RequestStage::Authorization,
        StageReport::Cache(_) => RequestStage::CacheLookup,
    }
}

/// An outcome that ends the request with an error answer of this status
/// and body.
pub open spec fn refuses_with(o: StageOutcome, status: u16, body: Seq<char>) -> bool {
    o matches StageOutcome::Error { status_code, message } && status_code == status && message@ == body
}

/// The outcome a report gives: `Continue` when the request goes on; a
/// handled answer for a pre-flight, a special endpoint or a cache answer;
/// otherwise the refusal with the status and body that are sent.
pub open spec fn report_outcome(r: StageReport, o: StageOutcome) -> bool {
    match r {
        StageReport::Resources(c) => match c {
            ResourceCheckResult::Available => o is Continue,
            _ => refuses_with(
                o,
                503,
                error_body("Service Temporarily Unavailable"@, resource_refusal_message(c), 503),
            ),
        },
        StageReport::Security { method, check, violation, .. } => match check {
            MethodCheck::NotAllowed => refuses_with(
                o,
                405,
                error_body("Method Not Allowed"@, method_not_allowed_message(method@), 405),
            ),
            MethodCheck::Preflight => o == (StageOutcome::Handled { status_code: 200 }),
            MethodCheck::Allowed => match violation {
                Some(v) => refuses_with(o, v.status, v.error_body@),
                None => o is Continue,
            },
        },
        StageReport::Special { endpoint, status } => if endpoint is NotSpecial {
            o is Continue
        } else {
            o == (StageOutcome::Handled { status_code: status })
        },
        StageReport::Routing(routing) => match routing {
            RoutingResult::Routed { .. } => o is Continue,
            RoutingResult::NotFound => refuses_with(o, 404, Seq::<char>::empty()),
        },
        StageReport::RateLimit(rate) => match rate {
            RateLimitResult::Allowed => o is Continue,
            RateLimitResult::Limited { error, .. } => refuses_with(
                o,
                429,
                error_body("Too Many Requests"@, rate_limit_message(error), 429),
            ),
        },
        StageReport::Breaker(breaker) => match breaker {
            CircuitBreakerResult::Allowed { .. } => o is Continue,
            CircuitBreakerResult::Rejected { bucket_name, .. } => refuses_with(
                o,
                503,
                circuit_breaker_body(bucket_name@),
            ),
        },
        StageReport::Authentication(a) => match a {
            AuthCheck::MissingToken => refuses_with(o, 401, Seq::<char>::empty()),
            AuthCheck::InvalidToken => refuses_with(o, 403, Seq::<char>::empty()),
            _ => o is Continue,
        },
        StageReport::Authorization(z) => match z {
            AuthorizationResult::Denied { reason } => refuses_with(o, 403, reason@),
            _ => o is Continue,
        },
        StageReport::Cache(c) => match c {
            CacheLookupResult::Hit | CacheLookupResult::StreamingFollower => o == (StageOutcome::Handled {
                status_code: 200,
            }),
            CacheLookupResult::NotModified => o == (StageOutcome::Handled { status_code: 304 }),
            _ => o is Continue,
        },
    }
}

/// The metrics after a report. A request that gets past the concurrency
/// limit counts as an active connection, one refused there as a
/// concurrency rejection. A request that passes the security checks
/// counts, with its method, when metrics are collected. A routed request
/// counts for its bucket; an authentication counts as a success, a
/// bypass or a failure with its type. Every answer given counts its
/// status, and a security refusal and a rate limited request also count
/// under their own counters.
pub open spec fn report_metrics(m: MetricsView, r: StageReport) -> MetricsView {
    match r {
        StageReport::Resources(c) => match c {
            ResourceCheckResult::ConcurrencyLimitReached => MetricsView {
                concurrency_limit_rejections: wrap_inc(m.concurrency_limit_rejections),
                ..m
            },
            _ => MetricsView { active_connections: wrap_inc(m.active_connections), ..m },
        },
        StageReport::Security { method, check, violation, metrics_enabled } => match check {
            MethodCheck::NotAllowed => with_status(m, 405),
            MethodCheck::Preflight => with_status(m, 200),
            MethodCheck::Allowed => match violation {
                Some(v) => after_violation(m, v.metric_action, v.status),
                None => if metrics_enabled {
                    MetricsView {
                        request_count: wrap_inc(m.request_count),
                        method_counts: label_increment(m.method_counts, method@),
                        ..m
                    }
                } else {
                    m
                },
            },
        },
        StageReport::Special { endpoint, status } => if endpoint is NotSpecial {
            m
        } else {
            with_status(m, status)
        },
        StageReport::Routing(routing) => match routing {
            RoutingResult::Routed { bucket_name, .. } => MetricsView {
                bucket_counts: label_increment(m.bucket_counts, bucket_name@),
                ..m
            },
            RoutingResult::NotFound => with_status(m, 404),
        },
        StageReport::RateLimit(rate) => match rate {
            RateLimitResult::Allowed => m,
            RateLimitResult::Limited { bucket_name, .. } => with_status(
                MetricsView { rate_limit_exceeded: label_increment(m.rate_limit_exceeded, bucket_name@), ..m },
                429,
            ),
        },
        StageReport::Breaker(breaker) => match breaker {
            CircuitBreakerResult::Allowed { .. } => m,
            CircuitBreakerResult::Rejected { .. } => with_status(m, 503),
        },
        StageReport::Authentication(a) => match a {
            AuthCheck::Bypassed => MetricsView { auth_bypassed: wrap_inc(m.auth_bypassed), ..m },
            AuthCheck::Authenticated => MetricsView { auth_success: wrap_inc(m.auth_success), ..m },
            AuthCheck::MissingToken => with_status(
                MetricsView {
                    auth_failure: wrap_inc(m.auth_failure),
                    auth_errors: label_increment(m.auth_errors, "missing"@),
                    ..m
                },
                401,
            ),
            AuthCheck::InvalidToken => with_status(
                MetricsView {
                    auth_failure: wrap_inc(m.auth_failure),
                    auth_errors: label_increment(m.auth_errors, "invalid"@),
                    ..m
                },
                403,
            ),
        },
        StageReport::Authorization(z) => match z {
            AuthorizationResult::Denied { .. } => with_status(m, 403),
            _ => m,
        },
        StageReport::Cache(c) => match c {
            CacheLookupResult::Hit | CacheLookupResult::StreamingFollower => with_status(m, 200),
            CacheLookupResult::NotModified => with_status(m, 304),
            _ => m,
        },
    }
}

impl StageReport {
    /// The stage this report belongs to.
    pub fn stage(&self) -> (r: RequestStage)
        ensures
            r == report_stage(*self),
    {
        match self {
            StageReport::Resources(_) => RequestStage::ResourceCheck,
            StageReport::Security { .. } => RequestStage::SecurityValidation,
            StageReport::Special { .. } => RequestStage::SpecialEndpoint,
            StageReport::Routing(_) => RequestStage::Routing,
            StageReport::RateLimit(_) => RequestStage::RateLimiting,
            StageReport::Breaker(_) => RequestStage::CircuitBreaker,
            StageReport::Authentication(_) => RequestStage::Authentication,
            StageReport::Authorization(_) => RequestStage::Authorization,
            StageReport::Cache(_) => RequestStage::CacheLookup,
        }
    }
}

fn refusal(status: u16, body: String) -> (r: StageOutcome)
    ensures
        refuses_with(r, status, body@),
{
    StageOutcome::Error { status_code: status, message: body }
}

/// Counts a report in the metrics and gives its outcome.
fn apply_report(report: &StageReport, metrics: &mut Metrics) -> (r: StageOutcome)
    ensures
        report_outcome(*report, r),
        final(metrics)@ == report_metrics(old(metrics)@, *report),
{
    match report {
        StageReport::Resources(c) => match c {
            ResourceCheckResult::Available => {
                metrics.increment_active_connections();
                StageOutcome::Continue
            },
            ResourceCheckResult::ConcurrencyLimitReached => {
                metrics.increment_concurrency_limit_rejection();
                refusal(
                    503,
                    build_error_body(
                        "Service Temporarily Unavailable",
                        "Server has reached maximum concurrent request limit. Please retry after 5 seconds.",
                        503,
                    ),
                )
            },
            ResourceCheckResult::ResourceExhausted => {
                metrics.increment_active_connections();
                refusal(
                    503,
                    build_error_body(
                        "Service Temporarily Unavailable",
                        "Server is under heavy load. Please retry after 10 seconds.",
                        503,
                    ),
                )
            },
        },
        StageReport::Security { method, check, violation, metrics_enabled } => match check {
            MethodCheck::NotAllowed => {
                metrics.increment_status_count(405);
                refusal(405, method_not_allowed_body(method.as_str()))
            },
            MethodCheck::Preflight => {
                metrics.increment_status_count(200);
                StageOutcome::Handled { status_code: 200 }
            },
            MethodCheck::Allowed => match violation {
                Some(v) => {
                    v.metric_action.update_metrics(metrics, v.status);
                    refusal(v.status, v.error_body.clone())
                },
                None => {
                    if *metrics_enabled {
                        metrics.increment_request_count();
                        metrics.increment_method_count(method.as_str());
                    }
                    StageOutcome::Continue
                },
            },
        },
        StageReport::Special { endpoint, status } => match endpoint {
            SpecialEndpointResult::NotSpecial => StageOutcome::Continue,
            _ => {
                metrics.increment_status_count(*status);
                StageOutcome::Handled { status_code: *status }
            },
        },
        StageReport::Routing(routing) => match routing {
            RoutingResult::Routed { bucket_name, .. } => {
                metrics.increment_bucket_count(bucket_name.as_str());
                StageOutcome::Continue
            },
            RoutingResult::NotFound => {
                metrics.increment_status_count(404);
                refusal(404, String::new())
            },
        },
        StageReport::RateLimit(rate) => match rate {
            RateLimitResult::Allowed => StageOutcome::Continue,
            RateLimitResult::Limited { bucket_name, error } => {
                record_rate_limit_exceeded(metrics, bucket_name.as_str());
                refusal(429, build_rate_limit_error_body(error))
            },
        },
        StageReport::Breaker(breaker) => match breaker {
            CircuitBreakerResult::Allowed { .. } => StageOutcome::Continue,
            CircuitBreakerResult::Rejected { bucket_name, .. } => {
                metrics.increment_status_count(503);
                refusal(503, build_circuit_breaker_error_body(bucket_name.as_str()))
            },
        },
        StageReport::Authentication(a) => match a {
            AuthCheck::Bypassed => {
                metrics.increment_auth_bypassed();
                StageOutcome::Continue
            },
            AuthCheck::Authenticated => {
                metrics.increment_auth_success();
                StageOutcome::Continue
            },
            AuthCheck::MissingToken => {
                metrics.increment_auth_failure();
                metrics.increment_auth_error("missing");
                metrics.increment_status_count(401);
                refusal(401, String::new())
            },
            AuthCheck::InvalidToken => {
                metrics.increment_auth_failure();
                metrics.increment_auth_error("invalid");
                metrics.increment_status_count(403);
                refusal(403, String::new())
            },
        },
        StageReport::Authorization(z) => match z {
            AuthorizationResult::Denied { reason } => {
                metrics.increment_status_count(403);
                refusal(403, reason.clone())
            },
            _ => StageOutcome::Continue,
        },
        StageReport::Cache(c) => match c {
            CacheLookupResult::Hit | CacheLookupResult::StreamingFollower => {
                metrics.increment_status_count(200);
                StageOutcome::Handled { status_code: 200 }
            },
            CacheLookupResult::NotModified => {
                metrics.increment_status_count(304);
                StageOutcome::Handled { status_code: 304 }
            },
            _ => StageOutcome::Continue,
        },
    }
}

/// The request filter of one request: the outcomes of the stages run so
/// far, in stage order.
pub struct RequestFilter {
    outcomes: Vec<StageOutcome>,
}

/// Only the last outcome of a filter may end the request, and no stage
/// runs after the cache lookup.
pub open spec fn outcomes_wf(s: Seq<StageOutcome>) -> bool {
    &&& s.len() + 1 <= stage_count()
    &&& forall|j: int| 0 <= j < s.len() - 1 ==> (#[trigger] s[j]) is Continue
}

/// With no stop found from `i` on, every outcome from `i` on before
/// forwarding lets the request through.
proof fn lemma_first_stop_none(s: Seq<StageOutcome>, i: nat)
    requires
        i <= s.len(),
        s.len() + 1 <= stage_count(),
        first_stop(s, i) is None,
    ensures
        forall|j: int| i <= j < s.len() ==> (#[trigger] s[j]) is Continue,
    decreases s.len() - i,
{
    if i < s.len() {
        lemma_first_stop_none(s, i + 1);
    }
}

/// In a well-formed filter the only possible stop is the last outcome.
proof fn lemma_first_stop_last(s: Seq<StageOutcome>, i: nat)
    requires
        i <= s.len(),
        outcomes_wf(s),
    ensures
        first_stop(s, i) == (if i < s.len() && !(s.last() is Continue) {
            Some((s.len() - 1) as nat)
        } else {
            None::<nat>
        }),
    decreases s.len() - i,
{
    if i < s.len() {
        lemma_first_stop_last(s, i + 1);
    }
}

impl View for RequestFilter {
    type V = Seq<StageOutcome>;

    closed spec fn view(&self) -> Seq<StageOutcome> {
        self.outcomes@
    }
}

impl RequestFilter {
    #[verifier::type_invariant]
    spec fn wf(self) -> bool {
        outcomes_wf(self.outcomes@)
    }

    /// A request that no stage has looked at yet.
    pub fn new() -> (r: Self)
        ensures
            r@ == Seq::<StageOutcome>::empty(),
    {
        RequestFilter { outcomes: Vec::new() }
    }

    /// What to do next: run the next stage, answer with the outcome of the
    /// stage that ended the request, or forward it upstream.
    pub fn next_action(&self) -> (r: PipelineAction)
        ensures
            r == pipeline_decision(self@),
    {
        decide_request(&self.outcomes)
    }

    /// Takes the report of a stage. When it is the report of the stage
    /// that was to run next, it is counted in the metrics, its outcome is
    /// added, and the filter says what comes next; the report of any other
    /// stage (a stage that should not run, or after the request was
    /// decided) changes nothing.
    pub fn record(&mut self, report: StageReport, metrics: &mut Metrics) -> (r: PipelineAction)
        ensures
            pipeline_decision(old(self)@) == PipelineAction::Run(report_stage(report)) ==> {
                &&& final(self)@.len() == old(self)@.len() + 1
                &&& final(self)@.drop_last() == old(self)@
                &&& report_outcome(report, final(self)@.last())
                &&& final(metrics)@ == report_metrics(old(metrics)@, report)
                &&& r == pipeline_decision(final(self)@)
            },
            pipeline_decision(old(self)@) != PipelineAction::Run(report_stage(report)) ==> {
                &&& final(self)@ == old(self)@
                &&& final(metrics)@ == old(metrics)@
                &&& r == pipeline_decision(old(self)@)
            },
    {
        let action = decide_request(&self.outcomes);
        let stage = report.stage();
        if action != PipelineAction::Run(stage) {
            return action;
        }
        proof {
            use_type_invariant(&*self);
            lemma_first_stop_none(self.outcomes@, 0);
        }
        let outcome = apply_report(&report, metrics);
        let mut outcomes: Vec<StageOutcome> = Vec::new();
        std::mem::swap(&mut outcomes, &mut self.outcomes);
        outcomes.push(outcome);
        self.outcomes = outcomes;
        assert(self.outcomes@.drop_last() =~= old(self)@);
        decide_request(&self.outcomes)
    }

    /// The outcome that ends the request, once a stage has ended it.
    pub fn answer(&self) -> (r: Option<&StageOutcome>)
        ensures
            match pipeline_decision(self@) {
                PipelineAction::Respond(_) => r matches Some(o) && self@.len() > 0 && *o == self@.last(),
                _ => r is None,
            },
    {
        match decide_request(&self.outcomes) {
            PipelineAction::Respond(_) => {
                proof {
                    use_type_invariant(self);
                    lemma_first_stop_last(self.outcomes@, 0);
                }
                Some(&self.outcomes[self.outcomes.len() - 1])
            },
            _ => None,
        }
    }
}

} // verus!
