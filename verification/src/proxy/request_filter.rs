//! Request filter orchestration: the stages of request processing and the
//! outcome of each stage.
//!
//! The pipeline has ten stages, in order: resource checks, security
//! validation, special endpoints, routing, rate limiting, circuit breaker,
//! authentication, authorization, cache lookup and upstream forwarding. Each
//! stage either lets the request continue or ends it with a response.

use vstd::prelude::*;
use std::time::Duration;
use crate::text::{str_eq, starts_with, eq_ignore_ascii_case, has_prefix, to_string,
    eq_ignore_ascii_case_spec};
use crate::time::{duration_from_secs, duration_from_secs_spec};
use crate::json::error_body;
use crate::proxy::{MethodCheck, method_not_allowed_body, method_not_allowed_message};
use crate::proxy::security::SecurityViolation;

verus! {

/// Stages of request processing in order.
#[derive(Debug, Clone, Copy, PartialEq, Eq, Structural)]
pub enum RequestStage {
    /// Initial stage - check resource availability.
    ResourceCheck,
    /// Security validation (method, path, headers).
    SecurityValidation,
    /// Special endpoint handling (health, metrics).
    SpecialEndpoint,
    /// Route request to bucket.
    Routing,
    /// Rate limiting check.
    RateLimiting,
    /// Circuit breaker check.
    CircuitBreaker,
    /// JWT authentication.
    Authentication,
    /// OPA/OpenFGA authorization.
    Authorization,
    /// Cache lookup.
    CacheLookup,
    /// Forward to upstream.
    UpstreamForward,
}

/// Number of stages in the pipeline.
pub open spec fn stage_count() -> nat {
    10
}

/// Position of a stage in the pipeline, from 0.
pub open spec fn stage_index(s: RequestStage) -> nat {
    match s {
        RequestStage::ResourceCheck => 0,
        RequestStage::SecurityValidation => 1,
        RequestStage::SpecialEndpoint => 2,
        RequestStage::Routing => 3,
        RequestStage::RateLimiting => 4,
        RequestStage::CircuitBreaker => 5,
        RequestStage::Authentication => 6,
        RequestStage::Authorization => 7,
        RequestStage::CacheLookup => 8,
        RequestStage::UpstreamForward => 9,
    }
}

/// The stage at a position of the pipeline.
pub open spec fn stage_at(i: nat) -> RequestStage {
    if i == 0 {
        RequestStage::ResourceCheck
    } else if i == 1 {
        RequestStage::SecurityValidation
    } else if i == 2 {
        RequestStage::SpecialEndpoint
    } else if i == 3 {
        RequestStage::Routing
    } else if i == 4 {
        RequestStage::RateLimiting
    } else if i == 5 {
        RequestStage::CircuitBreaker
    } else if i == 6 {
        RequestStage::Authentication
    } else if i == 7 {
        RequestStage::Authorization
    } else if i == 8 {
        RequestStage::CacheLookup
    } else {
        RequestStage::UpstreamForward
    }
}

/// The name of a stage, for logging and metrics.
pub open spec fn stage_name(s: RequestStage) -> Seq<char> {
    match s {
        RequestStage::ResourceCheck => "resource_check"@,
        RequestStage::SecurityValidation => "security_validation"@,
        RequestStage::SpecialEndpoint => "special_endpoint"@,
        RequestStage::Routing => "routing"@,
        RequestStage::RateLimiting => "rate_limiting"@,
        RequestStage::CircuitBreaker => "circuit_breaker"@,
        RequestStage::Authentication => "authentication"@,
        RequestStage::Authorization => "authorization"@,
        RequestStage::CacheLookup => "cache_lookup"@,
        RequestStage::UpstreamForward => "upstream_forward"@,
    }
}

impl RequestStage {
    /// Get the next stage in the pipeline, `None` after the last one.
    pub fn next(&self) -> (r: Option<RequestStage>)
        ensures
            stage_index(*self) + 1 < stage_count() ==> r == Some(stage_at(stage_index(*self) + 1)),
            stage_index(*self) + 1 >= stage_count() ==> r is None,
    {
        match self {
            RequestStage::ResourceCheck => Some(RequestStage::SecurityValidation),
            RequestStage::SecurityValidation => Some(RequestStage::SpecialEndpoint),
            RequestStage::SpecialEndpoint => Some(RequestStage::Routing),
            RequestStage::Routing => Some(RequestStage::RateLimiting),
            RequestStage::RateLimiting => Some(RequestStage::CircuitBreaker),
            RequestStage::CircuitBreaker => Some(RequestStage::Authentication),
            RequestStage::Authentication => Some(RequestStage::Authorization),
            RequestStage::Authorization => Some(RequestStage::CacheLookup),
            RequestStage::CacheLookup => Some(RequestStage::UpstreamForward),
            RequestStage::UpstreamForward => None,
        }
    }

    /// Get stage name for logging/metrics.
    pub fn name(&self) -> (r: &'static str)
        ensures
            r@ == stage_name(*self),
    {
        match self {
            RequestStage::ResourceCheck => "resource_check",
            RequestStage::SecurityValidation => "security_validation",
            RequestStage::SpecialEndpoint => "special_endpoint",
            RequestStage::Routing => "routing",
            RequestStage::RateLimiting => "rate_limiting",
            RequestStage::CircuitBreaker => "circuit_breaker",
            RequestStage::Authentication => "authentication",
            RequestStage::Authorization => "authorization",
            RequestStage::CacheLookup => "cache_lookup",
            RequestStage::UpstreamForward => "upstream_forward",
        }
    }
}

/// Law: the stages form one chain: each stage but the last is followed by
/// the stage one position further, positions and stages correspond one to
/// one, the chain starts at the resource check and ends at upstream
/// forwarding after ten stages.
pub proof fn law_stage_chain(s: RequestStage, i: nat)
    ensures
        stage_index(s) < stage_count(),
        stage_at(stage_index(s)) == s,
        i < stage_count() ==> stage_index(stage_at(i)) == i,
        stage_index(RequestStage::ResourceCheck) == 0,
        stage_index(RequestStage::UpstreamForward) + 1 == stage_count(),
{
}

/// Outcome of a request processing stage.
#[derive(Debug, Clone)]
pub enum StageOutcome {
    /// Continue to the next stage.
    Continue,
    /// Short-circuit with a response (request fully handled).
    Handled {
        /// HTTP status code of the response.
        status_code: u16,
    },
    /// Short-circuit with an error response.
    Error {
        /// HTTP status code for the error.
        status_code: u16,
        /// Error message.
        message: String,
    },
}

impl StageOutcome {
    /// Create a continue outcome.
    pub fn continue_processing() -> (r: Self)
        ensures
            r is Continue,
    {
        StageOutcome::Continue
    }

    /// Create a handled outcome (successful response sent).
    pub fn handled(status_code: u16) -> (r: Self)
        ensures
            r == (StageOutcome::Handled { status_code }),
    {
        StageOutcome::Handled { status_code }
    }

    /// Create an error outcome.
    pub fn error(status_code: u16, message: &str) -> (r: Self)
        ensures
            r matches StageOutcome::Error { status_code: c, message: m } && c == status_code
                && m@ == message@,
    {
        StageOutcome::Error { status_code, message: to_string(message) }
    }

    /// Check if processing should continue.
    pub fn should_continue(&self) -> (r: bool)
        ensures
            r == (*self is Continue),
    {
        match self {
            StageOutcome::Continue => true,
            _ => false,
        }
    }

    /// Check if request was handled (either success or error).
    pub fn is_handled(&self) -> (r: bool)
        ensures
            r == !(*self is Continue),
    {
        !self.should_continue()
    }
}

/// The error outcome with a given status and message.
pub open spec fn error_outcome(status: u16, message: Seq<char>, o: StageOutcome) -> bool {
    o matches StageOutcome::Error { status_code: c, message: m } && c == status && m@ == message
}

/// Result of resource availability check.
#[derive(Debug, Clone, Copy, PartialEq, Eq)]
pub enum ResourceCheckResult {
    /// Resources available, continue processing.
    Available,
    /// Concurrency limit reached.
    ConcurrencyLimitReached,
    /// System under heavy load.
    ResourceExhausted,
}

impl ResourceCheckResult {
    /// Suggested retry delay in seconds: none when available, 5 seconds at
    /// the concurrency limit, 10 seconds under heavy load.
    pub open spec fn retry_after_secs(self) -> Option<u64> {
        match self {
            ResourceCheckResult::Available => None,
            ResourceCheckResult::ConcurrencyLimitReached => Some(5),
            ResourceCheckResult::ResourceExhausted => Some(10),
        }
    }

    /// Get suggested retry delay for resource exhaustion.
    pub fn retry_after(&self) -> (r: Option<Duration>)
        ensures
            match self.retry_after_secs() {
                None => r is None,
                Some(s) => r == Some(duration_from_secs_spec(s)),
            },
    {
        match self {
            ResourceCheckResult::Available => None,
            ResourceCheckResult::ConcurrencyLimitReached => Some(duration_from_secs(5)),
            ResourceCheckResult::ResourceExhausted => Some(duration_from_secs(10)),
        }
    }

    /// Convert to stage outcome: continue when available, otherwise a 503.
    pub fn as_outcome(&self) -> (r: StageOutcome)
        ensures
            *self is Available ==> r is Continue,
            *self is ConcurrencyLimitReached ==> error_outcome(
                503,
                "Server has reached maximum concurrent request limit"@,
                r,
            ),
            *self is ResourceExhausted ==> error_outcome(503, "Server is under heavy load"@, r),
    {
        match self {
            ResourceCheckResult::Available => StageOutcome::Continue,
            ResourceCheckResult::ConcurrencyLimitReached => StageOutcome::error(
                503,
                "Server has reached maximum concurrent request limit",
            ),
            ResourceCheckResult::ResourceExhausted => StageOutcome::error(
                503,
                "Server is under heavy load",
            ),
        }
    }
}

/// Result of special endpoint handling.
#[derive(Debug, Clone, PartialEq, Eq)]
pub enum SpecialEndpointResult {
    /// Not a special endpoint, continue normal processing.
    NotSpecial,
    /// Health check endpoint.
    HealthCheck,
    /// Metrics endpoint.
    Metrics,
    /// Cache purge endpoint.
    CachePurge,
    /// Config reload endpoint.
    ConfigReload,
}

impl SpecialEndpointResult {
    /// Check if this is a special endpoint.
    pub fn is_special(&self) -> (r: bool)
        ensures
            r == !(*self is NotSpecial),
    {
        match self {
            SpecialEndpointResult::NotSpecial => false,
            _ => true,
        }
    }
}

/// Result of routing a request to a bucket.
#[derive(Debug, Clone)]
pub enum RoutingResult {
    /// Successfully routed to a bucket.
    Routed {
        /// Bucket name.
        bucket_name: String,
        /// Object key within the bucket.
        object_key: String,
    },
    /// No matching route found.
    NotFound,
}

impl RoutingResult {
    /// Create a routed result.
    pub fn routed(bucket_name: &str, object_key: &str) -> (r: Self)
        ensures
            r matches RoutingResult::Routed { bucket_name: b, object_key: k } && b@ == bucket_name@
                && k@ == object_key@,
    {
        RoutingResult::Routed {
            bucket_name: to_string(bucket_name),
            object_key: to_string(object_key),
        }
    }

    /// Create a not found result.
    pub fn not_found() -> (r: Self)
        ensures
            r is NotFound,
    {
        RoutingResult::NotFound
    }

    /// Check if routing was successful.
    pub fn is_routed(&self) -> (r: bool)
        ensures
            r == (*self is Routed),
    {
        match self {
            RoutingResult::Routed { .. } => true,
            RoutingResult::NotFound => false,
        }
    }

    /// Get bucket name if routed.
    pub fn bucket_name(&self) -> (r: Option<&str>)
        ensures
            match self {
                RoutingResult::Routed { bucket_name, .. } => r is Some && r.unwrap()@
                    == bucket_name@,
                RoutingResult::NotFound => r is None,
            },
    {
        match self {
            RoutingResult::Routed { bucket_name, .. } => Some(bucket_name.as_str()),
            RoutingResult::NotFound => None,
        }
    }

    /// Get object key if routed.
    pub fn object_key(&self) -> (r: Option<&str>)
        ensures
            match self {
                RoutingResult::Routed { object_key, .. } => r is Some && r.unwrap()@
                    == object_key@,
                RoutingResult::NotFound => r is None,
            },
    {
        match self {
            RoutingResult::Routed { object_key, .. } => Some(object_key.as_str()),
            RoutingResult::NotFound => None,
        }
    }
}

/// Result of the rate limit check.
#[derive(Debug, Clone, Copy, PartialEq, Eq, Structural)]
pub enum RateLimitResult {
    /// The request may proceed.
    Allowed,
    /// The request is rate limited for `retry_after` seconds.
    Limited { retry_after: u64 },
}

/// The message of a rate limited request.
pub open spec fn rate_limit_message(retry_after: u64) -> Seq<char> {
    "Rate limit exceeded. Retry after "@ + crate::text::decimal(retry_after as nat) + " seconds"@
}

impl RateLimitResult {
    /// The request may proceed.
    pub fn allowed() -> (r: Self)
        ensures
            r == RateLimitResult::Allowed,
    {
        RateLimitResult::Allowed
    }

    /// The request is rate limited for `retry_after` seconds.
    pub fn limited(retry_after: u64) -> (r: Self)
        ensures
            r == (RateLimitResult::Limited { retry_after }),
    {
        RateLimitResult::Limited { retry_after }
    }

    /// Whether the request may proceed.
    pub fn is_allowed(&self) -> (r: bool)
        ensures
            r == (*self == RateLimitResult::Allowed),
    {
        match self {
            RateLimitResult::Allowed => true,
            RateLimitResult::Limited { .. } => false,
        }
    }

    /// The stage outcome: continue, or a 429 error saying when to retry.
    pub fn as_outcome(&self) -> (r: StageOutcome)
        ensures
            match *self {
                RateLimitResult::Allowed => r is Continue,
                RateLimitResult::Limited { retry_after } => error_outcome(
                    429,
                    rate_limit_message(retry_after),
                    r,
                ),
            },
    {
        match self {
            RateLimitResult::Allowed => StageOutcome::Continue,
            RateLimitResult::Limited { retry_after } => {
                let mut m = to_string("Rate limit exceeded. Retry after ");
                let d = crate::text::u64_to_decimal(*retry_after);
                crate::text::push_str(&mut m, d.as_str());
                crate::text::push_str(&mut m, " seconds");
                StageOutcome::error(429, m.as_str())
            },
        }
    }
}

/// Result of circuit breaker check.
#[derive(Debug, Clone, Copy, PartialEq, Eq)]
pub enum CircuitBreakerResult {
    /// Circuit closed, request allowed.
    Closed,
    /// Circuit open, request rejected.
    Open,
    /// Circuit half-open, limited requests allowed.
    HalfOpen,
}

impl CircuitBreakerResult {
    /// Check if request should proceed: closed and half-open circuits let
    /// it through.
    pub fn should_proceed(&self) -> (r: bool)
        ensures
            r == !(*self is Open),
    {
        match self {
            CircuitBreakerResult::Closed | CircuitBreakerResult::HalfOpen => true,
            CircuitBreakerResult::Open => false,
        }
    }

    /// Convert to stage outcome: an open circuit ends the request with 503.
    pub fn as_outcome(&self) -> (r: StageOutcome)
        ensures
            !(*self is Open) ==> r is Continue,
            *self is Open ==> error_outcome(
                503,
                "Service temporarily unavailable (circuit breaker open)"@,
                r,
            ),
    {
        match self {
            CircuitBreakerResult::Closed | CircuitBreakerResult::HalfOpen => StageOutcome::Continue,
            CircuitBreakerResult::Open => StageOutcome::error(
                503,
                "Service temporarily unavailable (circuit breaker open)",
            ),
        }
    }
}

/// Result of JWT authentication.
#[derive(Debug, Clone)]
pub enum AuthenticationResult {
    /// Successfully authenticated.
    Authenticated {
        /// Subject (user ID) from JWT.
        subject: Option<String>,
        /// Custom claims from JWT.
        claims: Vec<(String, String)>,
    },
    /// Authentication not required (public bucket).
    NotRequired,
    /// Authentication failed.
    Failed {
        /// Error message.
        reason: String,
    },
}

impl AuthenticationResult {
    /// Create an authenticated result.
    pub fn authenticated(subject: Option<String>, claims: Vec<(String, String)>) -> (r: Self)
        ensures
            r == (AuthenticationResult::Authenticated { subject, claims }),
    {
        AuthenticationResult::Authenticated { subject, claims }
    }

    /// Create a not required result.
    pub fn not_required() -> (r: Self)
        ensures
            r is NotRequired,
    {
        AuthenticationResult::NotRequired
    }

    /// Create a failed result.
    pub fn failed(reason: &str) -> (r: Self)
        ensures
            r matches AuthenticationResult::Failed { reason: m } && m@ == reason@,
    {
        AuthenticationResult::Failed { reason: to_string(reason) }
    }

    /// Check if authentication succeeded (or was not required).
    pub fn is_success(&self) -> (r: bool)
        ensures
            r == !(*self is Failed),
    {
        match self {
            AuthenticationResult::Failed { .. } => false,
            _ => true,
        }
    }

    /// Convert to stage outcome: a failure ends the request with 401 and
    /// the failure's reason.
    pub fn as_outcome(&self) -> (r: StageOutcome)
        ensures
            match self {
                AuthenticationResult::Failed { reason } => error_outcome(401, reason@, r),
                _ => r is Continue,
            },
    {
        match self {
            AuthenticationResult::Authenticated { .. } | AuthenticationResult::NotRequired => {
                StageOutcome::Continue
            },
            AuthenticationResult::Failed { reason } => StageOutcome::error(401, reason.as_str()),
        }
    }
}

/// Result of authorization check (OPA/OpenFGA).
#[derive(Debug, Clone)]
pub enum AuthorizationResult {
    /// Access allowed.
    Allowed,
    /// Access denied.
    Denied {
        /// Reason for denial.
        reason: String,
    },
    /// Authorization not configured.
    NotConfigured,
}

impl AuthorizationResult {
    /// Create an allowed result.
    pub fn allowed() -> (r: Self)
        ensures
            r is Allowed,
    {
        AuthorizationResult::Allowed
    }

    /// Create a denied result.
    pub fn denied(reason: &str) -> (r: Self)
        ensures
            r matches AuthorizationResult::Denied { reason: m } && m@ == reason@,
    {
        AuthorizationResult::Denied { reason: to_string(reason) }
    }

    /// Create a not configured result.
    pub fn not_configured() -> (r: Self)
        ensures
            r is NotConfigured,
    {
        AuthorizationResult::NotConfigured
    }

    /// Check if access is allowed (allowed, or no authorization configured).
    pub fn is_allowed(&self) -> (r: bool)
        ensures
            r == !(*self is Denied),
    {
        match self {
            AuthorizationResult::Denied { .. } => false,
            _ => true,
        }
    }

    /// Convert to stage outcome: a denial ends the request with 403 and the
    /// denial's reason.
    pub fn as_outcome(&self) -> (r: StageOutcome)
        ensures
            match self {
                AuthorizationResult::Denied { reason } => error_outcome(403, reason@, r),
                _ => r is Continue,
            },
    {
        match self {
            AuthorizationResult::Allowed | AuthorizationResult::NotConfigured => {
                StageOutcome::Continue
            },
            AuthorizationResult::Denied { reason } => StageOutcome::error(403, reason.as_str()),
        }
    }
}

/// Result of cache lookup.
#[derive(Debug, Clone, Copy, PartialEq, Eq)]
pub enum CacheLookupResult {
    /// Cache hit - serve from cache.
    Hit,
    /// Cache miss - fetch from upstream.
    Miss,
    /// Conditional request matched - return 304.
    NotModified,
    /// Joined streaming coalescer as follower.
    StreamingFollower,
    /// Cache lookup error - continue to upstream.
    Error,
}

impl CacheLookupResult {
    /// Check if request should continue to upstream (miss or error).
    pub fn should_fetch_upstream(&self) -> (r: bool)
        ensures
            r == (*self is Miss || *self is Error),
    {
        match self {
            CacheLookupResult::Miss | CacheLookupResult::Error => true,
            _ => false,
        }
    }

    /// Check if response can be served immediately (hit, not modified, or
    /// streaming follower).
    pub fn can_serve_immediately(&self) -> (r: bool)
        ensures
            r == (*self is Hit || *self is NotModified || *self is StreamingFollower),
    {
        match self {
            CacheLookupResult::Hit
            | CacheLookupResult::NotModified
            | CacheLookupResult::StreamingFollower => true,
            _ => false,
        }
    }
}

/// Law: every cache lookup result either goes upstream or is served
/// immediately, never both.
pub proof fn law_cache_lookup_partition(r: CacheLookupResult)
    ensures
        (r is Miss || r is Error) != (r is Hit || r is NotModified || r is StreamingFollower),
{
}

/// Final outcome of request_filter processing.
#[derive(Debug, Clone, Copy, PartialEq, Eq)]
pub enum RequestFilterOutcome {
    /// Request was fully handled (response sent).
    Handled,
    /// Continue to upstream (return false from request_filter).
    ContinueToUpstream,
}

impl RequestFilterOutcome {
    /// Convert to the boolean return value for request_filter:
    /// `true` = handled, `false` = continue to upstream.
    pub fn as_bool(&self) -> (r: bool)
        ensures
            r == (*self is Handled),
    {
        match self {
            RequestFilterOutcome::Handled => true,
            RequestFilterOutcome::ContinueToUpstream => false,
        }
    }
}

/// The special endpoint a path names: `/health`, `/healthz` and `/ready`
/// are health checks, `/metrics` is metrics, `/admin/reload` reloads the
/// configuration, and any path starting with `/admin/cache/purge` purges.
pub open spec fn classify_special_spec(path: Seq<char>) -> SpecialEndpointResult {
    if path == "/health"@ || path == "/healthz"@ || path == "/ready"@ {
        SpecialEndpointResult::HealthCheck
    } else if path == "/metrics"@ {
        SpecialEndpointResult::Metrics
    } else if path == "/admin/reload"@ {
        SpecialEndpointResult::ConfigReload
    } else if has_prefix(path, "/admin/cache/purge"@) {
        SpecialEndpointResult::CachePurge
    } else {
        SpecialEndpointResult::NotSpecial
    }
}

/// Check if a path is a special endpoint (health, metrics, reload or
/// cache purge).
pub fn is_special_endpoint(path: &str) -> (r: bool)
    ensures
        r == (path@ == "/health"@ || path@ == "/healthz"@ || path@ == "/ready"@ || path@
            == "/metrics"@ || path@ == "/admin/reload"@ || has_prefix(
            path@,
            "/admin/cache/purge"@,
        )),
{
    str_eq(path, "/health") || str_eq(path, "/healthz") || str_eq(path, "/ready") || str_eq(
        path,
        "/metrics",
    ) || str_eq(path, "/admin/reload") || starts_with(path, "/admin/cache/purge")
}

/// Determine the special endpoint type from path.
pub fn classify_special_endpoint(path: &str) -> (r: SpecialEndpointResult)
    ensures
        r == classify_special_spec(path@),
{
    if str_eq(path, "/health") || str_eq(path, "/healthz") || str_eq(path, "/ready") {
        SpecialEndpointResult::HealthCheck
    } else if str_eq(path, "/metrics") {
        SpecialEndpointResult::Metrics
    } else if str_eq(path, "/admin/reload") {
        SpecialEndpointResult::ConfigReload
    } else if starts_with(path, "/admin/cache/purge") {
        SpecialEndpointResult::CachePurge
    } else {
        SpecialEndpointResult::NotSpecial
    }
}

/// Law: a path is special exactly when its classification is not
/// `NotSpecial`.
pub proof fn law_special_endpoint_agrees(path: Seq<char>)
    ensures
        (path == "/health"@ || path == "/healthz"@ || path == "/ready"@ || path == "/metrics"@
            || path == "/admin/reload"@ || has_prefix(path, "/admin/cache/purge"@)) <==> !(
        classify_special_spec(path) is NotSpecial),
{
}

/// Check if HTTP method is safe (GET/HEAD/OPTIONS, any ASCII case).
pub fn is_safe_method(method: &str) -> (r: bool)
    ensures
        r == (eq_ignore_ascii_case_spec(method@, "GET"@) || eq_ignore_ascii_case_spec(
            method@,
            "HEAD"@,
        ) || eq_ignore_ascii_case_spec(method@, "OPTIONS"@)),
{
    eq_ignore_ascii_case(method, "GET") || eq_ignore_ascii_case(method, "HEAD")
        || eq_ignore_ascii_case(method, "OPTIONS")
}

/// Check if request requires authentication: exactly when a JWT
/// configuration is present.
pub fn requires_authentication(jwt_config: Option<&str>) -> (r: bool)
    ensures
        r == jwt_config is Some,
{
    jwt_config.is_some()
}

/// What the request filter does next.
#[derive(Debug, Clone, Copy, PartialEq, Eq, Structural)]
pub enum PipelineAction {
    /// Run this stage next.
    Run(RequestStage),
    /// Answer now, with the outcome of this stage.
    Respond(RequestStage),
    /// Every stage let the request through: forward it upstream.
    Forward,
}

/// The action after `stage` ended with `outcome`: answer with it when it
/// ends the request; otherwise run the next stage, or forward upstream
/// after the cache lookup.
pub open spec fn step_action(stage: RequestStage, outcome: StageOutcome) -> PipelineAction {
    if !(outcome is Continue) {
        PipelineAction::Respond(stage)
    } else if stage_index(stage) + 2 < stage_count() {
        PipelineAction::Run(stage_at(stage_index(stage) + 1))
    } else {
        PipelineAction::Forward
    }
}

/// Position of the first known outcome, from position `i` on and among
/// the stages before forwarding, that ends the request.
pub open spec fn first_stop(outcomes: Seq<StageOutcome>, i: nat) -> Option<nat>
    decreases 10 - i,
{
    if i >= outcomes.len() || i + 1 >= stage_count() {
        None
    } else if !(outcomes[i as int] is Continue) {
        Some(i)
    } else {
        first_stop(outcomes, i + 1)
    }
}

/// The decision after the outcomes of the first stages, in stage order:
/// the first stage that ends the request answers and the later stages do
/// not run; when all nine stages before forwarding let the request
/// through, it is forwarded; otherwise the next stage runs.
pub open spec fn pipeline_decision(outcomes: Seq<StageOutcome>) -> PipelineAction {
    match first_stop(outcomes, 0) {
        Some(i) => PipelineAction::Respond(stage_at(i)),
        None => if outcomes.len() + 1 >= stage_count() {
            PipelineAction::Forward
        } else {
            PipelineAction::Run(stage_at(outcomes.len()))
        },
    }
}

/// The stage at a position of the pipeline.
pub fn stage_at_position(i: usize) -> (r: RequestStage)
    ensures
        r == stage_at(i as nat),
{
    if i == 0 {
        RequestStage::ResourceCheck
    } else if i == 1 {
        RequestStage::SecurityValidation
    } else if i == 2 {
        RequestStage::SpecialEndpoint
    } else if i == 3 {
        RequestStage::Routing
    } else if i == 4 {
        RequestStage::RateLimiting
    } else if i == 5 {
        RequestStage::CircuitBreaker
    } else if i == 6 {
        RequestStage::Authentication
    } else if i == 7 {
        RequestStage::Authorization
    } else if i == 8 {
        RequestStage::CacheLookup
    } else {
        RequestStage::UpstreamForward
    }
}

/// One step of the request filter: what to do after `stage` ended with
/// `outcome`.
pub fn pipeline_step(stage: RequestStage, outcome: &StageOutcome) -> (r: PipelineAction)
    ensures
        r == step_action(stage, *outcome),
{
    if !outcome.should_continue() {
        return PipelineAction::Respond(stage);
    }
    match stage.next() {
        Some(RequestStage::UpstreamForward) | None => PipelineAction::Forward,
        Some(next) => PipelineAction::Run(next),
    }
}

/// The decision of the request filter from the outcomes of the stages
/// run so far, in stage order (see `pipeline_decision`).
pub fn decide_request(outcomes: &Vec<StageOutcome>) -> (r: PipelineAction)
    ensures
        r == pipeline_decision(outcomes@),
{
    let mut i: usize = 0;
    while i < outcomes.len() && i + 1 < 10
        invariant
            i <= outcomes@.len(),
            i < 10,
            first_stop(outcomes@, 0) == first_stop(outcomes@, i as nat),
        decreases outcomes.len() - i,
    {
        if !outcomes[i].should_continue() {
            return PipelineAction::Respond(stage_at_position(i));
        }
        i = i + 1;
    }
    if outcomes.len() >= 9 {
        PipelineAction::Forward
    } else {
        PipelineAction::Run(stage_at_position(outcomes.len()))
    }
}

/// Adding the outcome of one more stage: an earlier stop stays the stop;
/// otherwise the new outcome stops when it ends the request before
/// forwarding.
proof fn lemma_first_stop_push(outcomes: Seq<StageOutcome>, o: StageOutcome, i: nat)
    requires
        i <= outcomes.len(),
    ensures
        first_stop(outcomes.push(o), i) == match first_stop(outcomes, i) {
            Some(j) => Some(j),
            None => if outcomes.len() + 1 < stage_count() && !(o is Continue) && i <= outcomes.len() {
                Some(outcomes.len())
            } else {
                None
            },
        },
    decreases outcomes.len() - i,
{
    if i < outcomes.len() && i + 1 < stage_count() {
        assert(outcomes.push(o)[i as int] == outcomes[i as int]);
        lemma_first_stop_push(outcomes, o, i + 1);
    } else if i == outcomes.len() && i + 1 < stage_count() {
        assert(outcomes.push(o)[i as int] == o);
        assert(first_stop(outcomes.push(o), i + 1) is None);
    }
}

/// Law: running the filter one step at a time decides as the whole
/// pipeline does. While the next stage is to run, its outcome leads to
/// the decision of the outcomes so far plus that one; once decided, a
/// further outcome changes nothing.
pub proof fn law_steps_decide(outcomes: Seq<StageOutcome>, o: StageOutcome)
    ensures
        pipeline_decision(outcomes) is Run ==> pipeline_decision(outcomes) == PipelineAction::Run(
            stage_at(outcomes.len()),
        ) && pipeline_decision(outcomes.push(o)) == step_action(stage_at(outcomes.len()), o),
        !(pipeline_decision(outcomes) is Run) ==> pipeline_decision(outcomes.push(o)) == pipeline_decision(
            outcomes,
        ),
{
    lemma_first_stop_push(outcomes, o, 0);
}

/// What `first_stop` finds from position `i` on: a stop is an outcome that
/// ends the request with every outcome between `i` and it letting the
/// request through; no stop means every outcome from `i` on, before
/// forwarding, lets the request through.
proof fn lemma_first_stop_meaning(outcomes: Seq<StageOutcome>, i: nat)
    ensures
        first_stop(outcomes, i) matches Some(k) ==> {
            &&& i <= k < outcomes.len()
            &&& k + 1 < stage_count()
            &&& !(outcomes[k as int] is Continue)
            &&& forall|j: int| i <= j < k ==> (#[trigger] outcomes[j]) is Continue
        },
        first_stop(outcomes, i) is None ==> forall|j: int|
            i <= j < outcomes.len() && j + 1 < stage_count() ==> (#[trigger] outcomes[j]) is Continue,
    decreases 10 - i,
{
    if i < outcomes.len() && i + 1 < stage_count() && outcomes[i as int] is Continue {
        lemma_first_stop_meaning(outcomes, i + 1);
    }
}

/// Law: the first stage, in stage order, whose outcome ends the request
/// answers it; the request is forwarded upstream exactly when each of the
/// nine stages before forwarding let it through.
pub proof fn law_first_refusal_answers(outcomes: Seq<StageOutcome>)
    ensures
        pipeline_decision(outcomes) matches PipelineAction::Respond(stage) ==> exists|i: int|
            #![trigger outcomes[i]]
            {
                &&& 0 <= i < outcomes.len()
                &&& i + 1 < stage_count()
                &&& stage == stage_at(i as nat)
                &&& !(outcomes[i] is Continue)
                &&& forall|j: int| 0 <= j < i ==> (#[trigger] outcomes[j]) is Continue
            },
        pipeline_decision(outcomes) is Forward <==> (outcomes.len() + 1 >= stage_count() && forall|j: int|
            0 <= j < stage_count() - 1 ==> (#[trigger] outcomes[j]) is Continue),
{
    lemma_first_stop_meaning(outcomes, 0);
    if let Some(k) = first_stop(outcomes, 0) {
        assert(outcomes[k as int] == outcomes[k as int]);
        if outcomes.len() + 1 >= stage_count() {
            assert(!(outcomes[k as int] is Continue));
        }
    }
}

/// The outcome of the security stage: a method other than GET, HEAD and
/// OPTIONS (outside the special endpoints) is refused with 405; an
/// OPTIONS pre-flight is answered 200; then the first security violation,
/// if any, is answered with its status and body.
pub fn security_outcome(method: &str, check: MethodCheck, violation: &Option<SecurityViolation>) -> (r:
    StageOutcome)
    ensures
        check is NotAllowed ==> error_outcome(
            405,
            error_body("Method Not Allowed"@, method_not_allowed_message(method@), 405),
            r,
        ),
        check is Preflight ==> r == (StageOutcome::Handled { status_code: 200 }),
        check is Allowed ==> match violation {
            Some(v) => error_outcome(v.status, v.error_body@, r),
            None => r is Continue,
        },
{
    match check {
        MethodCheck::NotAllowed => {
            let body = method_not_allowed_body(method);
            StageOutcome::error(405, body.as_str())
        },
        MethodCheck::Preflight => StageOutcome::Handled { status_code: 200 },
        MethodCheck::Allowed => match violation {
            Some(v) => StageOutcome::error(v.status, v.error_body.as_str()),
            None => StageOutcome::Continue,
        },
    }
}

/// The outcome of the special endpoint stage: a special endpoint is
/// answered with the status its handler gave; any other path goes on.
pub fn special_outcome(special: &SpecialEndpointResult, status: u16) -> (r: StageOutcome)
    ensures
        *special is NotSpecial ==> r is Continue,
        !(*special is NotSpecial) ==> r == (StageOutcome::Handled { status_code: status }),
{
    match special {
        SpecialEndpointResult::NotSpecial => StageOutcome::Continue,
        _ => StageOutcome::Handled { status_code: status },
    }
}

/// The outcome of routing: a path no bucket serves is answered 404 with
/// an empty body.
pub fn routing_outcome(routing: &RoutingResult) -> (r: StageOutcome)
    ensures
        *routing is Routed ==> r is Continue,
        *routing is NotFound ==> error_outcome(404, Seq::<char>::empty(), r),
{
    match routing {
        RoutingResult::Routed { .. } => StageOutcome::Continue,
        RoutingResult::NotFound => StageOutcome::Error { status_code: 404, message: String::new() },
    }
}

/// The outcome of the cache lookup: a hit and a streaming follower are
/// served 200, a matched conditional request 304; a miss or a lookup
/// error goes upstream.
pub fn cache_outcome(cache: &CacheLookupResult) -> (r: StageOutcome)
    ensures
        (*cache is Hit || *cache is StreamingFollower) ==> r == (StageOutcome::Handled { status_code: 200 }),
        *cache is NotModified ==> r == (StageOutcome::Handled { status_code: 304 }),
        (*cache is Miss || *cache is Error) ==> r is Continue,
{
    match cache {
        CacheLookupResult::Hit | CacheLookupResult::StreamingFollower => StageOutcome::Handled {
            status_code: 200,
        },
        CacheLookupResult::NotModified => StageOutcome::Handled { status_code: 304 },
        CacheLookupResult::Miss | CacheLookupResult::Error => StageOutcome::Continue,
    }
}

} // verus!
