//! Routing and authorization decisions: the circuit breaker gate, the OPA
//! query input, the error bodies of refusals and the metrics they count.

use vstd::prelude::*;
use crate::circuit_breaker::CircuitState;
use crate::json::{build_error_body, error_body, json_string};
use crate::labels::{label_increment, wrap_inc};
use crate::metrics::{Metrics, MetricsView};
use crate::opa::{OpaInput, empty_json_object};
use crate::openfga::FailMode;
use crate::rate_limit::{
    RateLimitError, RateLimitManager, answers_recorded, bucket_answer, checked_all, decided_by, global_answer,
    ip_check, rate_limit_message,
};
use crate::text::{decimal, push_str, to_string, str_eq, opt_view, opt_str_view};

verus! {

/// Result of the rate limit check.
#[derive(Debug)]
pub enum RateLimitResult {
    /// The request may proceed.
    Allowed,
    /// The request is over a limit.
    Limited { bucket_name: String, error: RateLimitError },
}

/// Checks every rate limit for a request to `bucket_name` from
/// `client_ip` (in its text form); without a manager, everything is
/// allowed. A refusal carries the bucket and the limit that refused.
pub fn check_rate_limits(
    rate_limit_manager: &mut Option<RateLimitManager>,
    bucket_name: &str,
    client_ip: Option<&str>,
) -> (r: RateLimitResult)
    ensures
        *old(rate_limit_manager) is None ==> r is Allowed && *final(rate_limit_manager) is None,
        r matches RateLimitResult::Limited { bucket_name: b, .. } ==> b@ == bucket_name@,
        *old(rate_limit_manager) is Some ==> *final(rate_limit_manager) is Some && checked_all(
            (*old(rate_limit_manager))->0@,
            (*final(rate_limit_manager))->0@,
            bucket_name@,
            opt_str_view(client_ip),
            None,
            rate_limit_outcome(r),
        ) && answers_recorded(
            (*old(rate_limit_manager))->0@,
            (*old(rate_limit_manager))->0.answers(),
            (*final(rate_limit_manager))->0.answers(),
            bucket_name@,
            opt_str_view(client_ip),
            None,
            rate_limit_outcome(r),
        ) && decided_by(
            rate_limit_outcome(r),
            global_answer((*old(rate_limit_manager))->0@, (*final(rate_limit_manager))->0.answers()),
            ip_check(
                (*old(rate_limit_manager))->0@,
                (*final(rate_limit_manager))->0.answers(),
                opt_str_view(client_ip),
            ),
            None,
            bucket_name@,
            bucket_answer(
                (*old(rate_limit_manager))->0@,
                (*final(rate_limit_manager))->0.answers(),
                bucket_name@,
            ),
        ),
{
    match rate_limit_manager.take() {
        None => RateLimitResult::Allowed,
        Some(mut manager) => {
            let res = manager.check_all(bucket_name, client_ip);
            *rate_limit_manager = Some(manager);
            match res {
                Ok(()) => RateLimitResult::Allowed,
                Err(error) => RateLimitResult::Limited { bucket_name: to_string(bucket_name), error },
            }
        },
    }
}

/// The outcome a rate limit result reports: `Ok` when allowed, the
/// refusal otherwise.
pub open spec fn rate_limit_outcome(r: RateLimitResult) -> Result<(), RateLimitError> {
    match r {
        RateLimitResult::Allowed => Ok(()),
        RateLimitResult::Limited { error, .. } => Err(error),
    }
}

/// The JSON body of a 429 refusal.
pub fn build_rate_limit_error_body(error: &RateLimitError) -> (r: String)
    ensures
        r@ == error_body("Too Many Requests"@, rate_limit_message(*error), 429),
{
    let message = error.message();
    build_error_body("Too Many Requests", message.as_str(), 429)
}

/// Result of the circuit breaker check.
#[derive(Debug, Clone)]
pub enum CircuitBreakerResult {
    /// The request may proceed; `is_half_open` when it probes recovery.
    Allowed { is_half_open: bool },
    /// The circuit is open: the request is refused.
    Rejected { bucket_name: String, state: CircuitState },
}

/// What the proxy reads of a bucket's circuit breaker for one request:
/// whether it lets the request through, and its state after that check.
#[derive(Debug, Clone, Copy, PartialEq, Eq, Structural)]
pub struct BreakerGate {
    /// Whether the breaker lets the request through.
    pub allows_request: bool,
    /// State of the breaker after the check.
    pub state: CircuitState,
}

/// Position of the first breaker registered for a bucket.
pub open spec fn find_gate(gates: Seq<(String, BreakerGate)>, name: Seq<char>) -> Option<int>
    decreases gates.len(),
{
    if gates.len() == 0 {
        None
    } else {
        match find_gate(gates.drop_last(), name) {
            Some(i) => Some(i),
            None => if gates.last().0@ == name {
                Some(gates.len() - 1)
            } else {
                None
            },
        }
    }
}

proof fn lemma_find_gate(gates: Seq<(String, BreakerGate)>, name: Seq<char>, k: int)
    requires
        0 <= k <= gates.len(),
        find_gate(gates.take(k), name) is Some,
    ensures
        find_gate(gates, name) == find_gate(gates.take(k), name),
    decreases gates.len(),
{
    if k < gates.len() {
        assert(gates.drop_last().take(k) =~= gates.take(k));
        lemma_find_gate(gates.drop_last(), name, k);
    } else {
        assert(gates.take(k) =~= gates);
    }
}

/// The circuit breaker decision for a bucket: without a breaker the
/// request proceeds; otherwise it proceeds when the breaker lets it
/// through (marked half-open when the breaker is half-open) and is
/// refused with the breaker's state when not.
pub open spec fn breaker_decision(
    gates: Seq<(String, BreakerGate)>,
    bucket: Seq<char>,
    r: CircuitBreakerResult,
) -> bool {
    match find_gate(gates, bucket) {
        None => r == (CircuitBreakerResult::Allowed { is_half_open: false }),
        Some(i) => {
            let g = gates[i].1;
            if g.allows_request {
                r == (CircuitBreakerResult::Allowed {
                    is_half_open: g.state == CircuitState::HalfOpen,
                })
            } else {
                r matches CircuitBreakerResult::Rejected { bucket_name, state } && bucket_name@
                    == bucket && state == g.state
            }
        },
    }
}


/// With no breaker named `name` among `gates`, none is found.
proof fn lemma_find_gate_none(gates: Seq<(String, BreakerGate)>, name: Seq<char>)
    requires
        forall|j: int| 0 <= j < gates.len() ==> (#[trigger] gates[j]).0@ != name,
    ensures
        find_gate(gates, name) is None,
    decreases gates.len(),
{
    if gates.len() > 0 {
        assert forall|j: int| 0 <= j < gates.drop_last().len() implies (#[trigger] gates.drop_last()[j]).0@
            != name by {
            assert(gates.drop_last()[j] == gates[j]);
        }
        lemma_find_gate_none(gates.drop_last(), name);
    }
}

/// The first breaker named `name` is the one found.
proof fn lemma_find_gate_first(gates: Seq<(String, BreakerGate)>, name: Seq<char>, i: int)
    requires
        0 <= i < gates.len(),
        gates[i].0@ == name,
        forall|j: int| 0 <= j < i ==> (#[trigger] gates[j]).0@ != name,
    ensures
        find_gate(gates, name) == Some(i),
    decreases gates.len(),
{
    let d = gates.drop_last();
    if i < gates.len() - 1 {
        assert(d[i] == gates[i]);
        assert forall|j: int| 0 <= j < i implies (#[trigger] d[j]).0@ != name by {
            assert(d[j] == gates[j]);
        }
        lemma_find_gate_first(d, name, i);
    } else {
        assert forall|j: int| 0 <= j < d.len() implies (#[trigger] d[j]).0@ != name by {
            assert(d[j] == gates[j]);
        }
        lemma_find_gate_none(d, name);
    }
}

/// Law: the decision for a bucket follows the bucket's own breaker, the
/// first one registered under its name, wherever it stands among the
/// others: an open breaker refuses the request with its state, one that
/// lets requests through allows it (as a half-open probe when it is
/// half-open). A bucket without a breaker of its name is always allowed.
pub proof fn law_breaker_of_bucket_decides(
    gates: Seq<(String, BreakerGate)>,
    bucket: Seq<char>,
    r: CircuitBreakerResult,
    i: int,
)
    requires
        breaker_decision(gates, bucket, r),
    ensures
        0 <= i < gates.len() && gates[i].0@ == bucket && (forall|j: int|
            0 <= j < i ==> (#[trigger] gates[j]).0@ != bucket) ==> {
            &&& !gates[i].1.allows_request ==> (r matches CircuitBreakerResult::Rejected {
                bucket_name,
                state,
            } && bucket_name@ == bucket && state == gates[i].1.state)
            &&& gates[i].1.allows_request ==> r == (CircuitBreakerResult::Allowed {
                is_half_open: gates[i].1.state == CircuitState::HalfOpen,
            })
        },
        (forall|j: int| 0 <= j < gates.len() ==> (#[trigger] gates[j]).0@ != bucket) ==> r == (
        CircuitBreakerResult::Allowed { is_half_open: false }),
{
    if 0 <= i < gates.len() && gates[i].0@ == bucket && (forall|j: int|
        0 <= j < i ==> (#[trigger] gates[j]).0@ != bucket) {
        lemma_find_gate_first(gates, bucket, i);
    }
    if forall|j: int| 0 <= j < gates.len() ==> (#[trigger] gates[j]).0@ != bucket {
        lemma_find_gate_none(gates, bucket);
    }
}

/// The circuit breaker decision for a bucket.
pub fn check_circuit_breaker(circuit_breakers: &Vec<(String, BreakerGate)>, bucket_name: &str) -> (r:
    CircuitBreakerResult)
    ensures
        breaker_decision(circuit_breakers@, bucket_name@, r),
{
    let mut i: usize = 0;
    while i < circuit_breakers.len()
        invariant
            i <= circuit_breakers@.len(),
            find_gate(circuit_breakers@.take(i as int), bucket_name@) is None,
        decreases circuit_breakers@.len() - i,
    {
        assert(circuit_breakers@.take(i + 1).drop_last() =~= circuit_breakers@.take(i as int));
        if str_eq(circuit_breakers[i].0.as_str(), bucket_name) {
            proof {
                lemma_find_gate(circuit_breakers@, bucket_name@, i + 1);
            }
            let g = circuit_breakers[i].1;
            if g.allows_request {
                return CircuitBreakerResult::Allowed { is_half_open: g.state == CircuitState::HalfOpen };
            } else {
                return CircuitBreakerResult::Rejected { bucket_name: to_string(bucket_name), state: g.state };
            }
        }
        i = i + 1;
    }
    assert(circuit_breakers@.take(circuit_breakers@.len() as int) =~= circuit_breakers@);
    CircuitBreakerResult::Allowed { is_half_open: false }
}

/// Result of the OPA authorization.
#[derive(Debug, Clone)]
pub enum OpaResult {
    /// The policy allows the request.
    Allowed,
    /// OPA failed and the bucket fails open.
    AllowedFailOpen { error: String },
    /// The policy denies the request.
    Denied,
    /// The bucket has no OPA policy.
    NotConfigured,
}

/// Result of the OpenFGA authorization.
#[derive(Debug, Clone)]
pub enum OpenFgaResult {
    /// The relation holds.
    Allowed,
    /// OpenFGA failed and the bucket fails open.
    AllowedFailOpen { error: String },
    /// The relation does not hold.
    Denied,
    /// The claims carry no user id.
    NoUserId { fail_mode: FailMode },
    /// The bucket has no OpenFGA model.
    NotConfigured,
}

/// The OPA query input of a request; without claims, the claims are the
/// empty JSON object.
pub fn build_opa_input(
    claims: Option<serde_json::Value>,
    bucket_name: &str,
    path: &str,
    method: &str,
    client_ip: Option<String>,
) -> (r: OpaInput)
    ensures
        r.bucket_view() == bucket_name@,
        r.path_view() == path@,
        r.method_view() == method@,
        r.client_ip_view() == opt_view(client_ip),
        claims matches Some(c) ==> r.claims_view() == c,
{
    let jwt_claims = match claims {
        Some(c) => c,
        None => empty_json_object(),
    };
    OpaInput::new(jwt_claims, to_string(bucket_name), to_string(path), to_string(method), client_ip)
}

/// The body of a 503 refusal by an open circuit breaker.
pub open spec fn circuit_breaker_body(bucket: Seq<char>) -> Seq<char> {
    "{\"bucket\":"@ + json_string(bucket) + ",\"error\":"@ + json_string(
        "Service Temporarily Unavailable"@,
    ) + ",\"message\":"@ + json_string("S3 backend is experiencing issues. Circuit breaker is open."@)
        + ",\"status\":503}"@
}

/// The JSON body of a 503 refusal by an open circuit breaker.
pub fn build_circuit_breaker_error_body(bucket_name: &str) -> (r: String)
    ensures
        r@ == circuit_breaker_body(bucket_name@),
{
    let mut out = to_string("{\"bucket\":");
    let b = crate::json::json_quote(bucket_name);
    push_str(&mut out, b.as_str());
    push_str(&mut out, ",\"error\":");
    let e = crate::json::json_quote("Service Temporarily Unavailable");
    push_str(&mut out, e.as_str());
    push_str(&mut out, ",\"message\":");
    let m = crate::json::json_quote("S3 backend is experiencing issues. Circuit breaker is open.");
    push_str(&mut out, m.as_str());
    push_str(&mut out, ",\"status\":503}");
    assert(out@ =~= circuit_breaker_body(bucket_name@));
    out
}

/// The metrics after counting a status code.
pub open spec fn with_status(m: MetricsView, status: u16) -> MetricsView {
    MetricsView { status_counts: label_increment(m.status_counts, decimal(status as nat)), ..m }
}

/// Counts a rate limited request: for its bucket and as a 429.
pub fn record_rate_limit_exceeded(metrics: &mut Metrics, bucket_name: &str)
    ensures
        final(metrics)@ == with_status(
            MetricsView {
                rate_limit_exceeded: label_increment(old(metrics)@.rate_limit_exceeded, bucket_name@),
                ..old(metrics)@
            },
            429,
        ),
{
    metrics.increment_rate_limit_exceeded(bucket_name);
    metrics.increment_status_count(429);
}

/// Counts a request refused by an open circuit breaker, as a 503.
pub fn record_circuit_breaker_rejected(metrics: &mut Metrics)
    ensures
        final(metrics)@ == with_status(old(metrics)@, 503),
{
    metrics.increment_status_count(503);
}

/// Counts a successful authentication.
pub fn record_auth_success(metrics: &mut Metrics)
    ensures
        final(metrics)@ == (MetricsView {
            auth_success: wrap_inc(old(metrics)@.auth_success),
            ..old(metrics)@
        }),
{
    metrics.increment_auth_success();
}

/// Counts a failed authentication: the failure, its type and the status.
pub fn record_auth_failure(metrics: &mut Metrics, error_type: &str, status: u16)
    ensures
        final(metrics)@ == with_status(
            MetricsView {
                auth_failure: wrap_inc(old(metrics)@.auth_failure),
                auth_errors: label_increment(old(metrics)@.auth_errors, error_type@),
                ..old(metrics)@
            },
            status,
        ),
{
    metrics.increment_auth_failure();
    metrics.increment_auth_error(error_type);
    metrics.increment_status_count(status);
}

/// Counts a request to a public bucket.
pub fn record_auth_bypassed(metrics: &mut Metrics)
    ensures
        final(metrics)@ == (MetricsView {
            auth_bypassed: wrap_inc(old(metrics)@.auth_bypassed),
            ..old(metrics)@
        }),
{
    metrics.increment_auth_bypassed();
}

/// Counts a request denied by authorization, as a 403.
pub fn record_authorization_denied(metrics: &mut Metrics)
    ensures
        final(metrics)@ == with_status(old(metrics)@, 403),
{
    metrics.increment_status_count(403);
}

} // verus!
