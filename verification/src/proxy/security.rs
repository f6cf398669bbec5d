//! The security checks of a request as the proxy applies them: the first
//! failing check decides the status, the JSON error body and the metric
//! that counts the refusal.

use vstd::prelude::*;
use crate::json::{build_error_body, error_body};
use crate::labels::{label_increment, wrap_inc};
use crate::metrics::{Metrics, MetricsView};
use crate::security::{
    self as sec, SecurityError, SecurityLimits, security_error_text, contains_any,
    traversal_patterns, sql_patterns,
};
use crate::text::decimal;

verus! {

/// A refused request: the status to answer with, the JSON body and the
/// metric to count it under.
#[derive(Debug, Clone)]
pub struct SecurityViolation {
    /// HTTP status code to return.
    pub status: u16,
    /// JSON error response body.
    pub error_body: String,
    /// Which security counter the refusal raises.
    pub metric_action: SecurityMetricAction,
}

/// The security counter a refusal raises.
#[derive(Debug, Clone, Copy, PartialEq, Eq, Structural)]
pub enum SecurityMetricAction {
    UriTooLong,
    HeadersTooLarge,
    PayloadTooLarge,
    PathTraversalBlocked,
    SqlInjectionBlocked,
}

/// The metrics after counting a refusal: the status count and the
/// action's own counter each go up by one.
pub open spec fn after_violation(m: MetricsView, action: SecurityMetricAction, status: u16) -> MetricsView {
    let m1 = MetricsView { status_counts: label_increment(m.status_counts, decimal(status as nat)), ..m };
    match action {
        SecurityMetricAction::UriTooLong => MetricsView {
            security_uri_too_long: wrap_inc(m1.security_uri_too_long),
            ..m1
        },
        SecurityMetricAction::HeadersTooLarge => MetricsView {
            security_headers_too_large: wrap_inc(m1.security_headers_too_large),
            ..m1
        },
        SecurityMetricAction::PayloadTooLarge => MetricsView {
            security_payload_too_large: wrap_inc(m1.security_payload_too_large),
            ..m1
        },
        SecurityMetricAction::PathTraversalBlocked => MetricsView {
            security_path_traversal_blocked: wrap_inc(m1.security_path_traversal_blocked),
            ..m1
        },
        SecurityMetricAction::SqlInjectionBlocked => MetricsView {
            security_sql_injection_blocked: wrap_inc(m1.security_sql_injection_blocked),
            ..m1
        },
    }
}

impl SecurityMetricAction {
    /// Counts the refusal: the status code and this action's counter.
    pub fn update_metrics(&self, metrics: &mut Metrics, status: u16)
        ensures
            final(metrics)@ == after_violation(old(metrics)@, *self, status),
    {
        metrics.increment_status_count(status);
        match self {
            SecurityMetricAction::UriTooLong => metrics.increment_security_uri_too_long(),
            SecurityMetricAction::HeadersTooLarge => metrics.increment_security_headers_too_large(),
            SecurityMetricAction::PayloadTooLarge => metrics.increment_security_payload_too_large(),
            SecurityMetricAction::PathTraversalBlocked => {
                metrics.increment_security_path_traversal_blocked()
            },
            SecurityMetricAction::SqlInjectionBlocked => {
                metrics.increment_security_sql_injection_blocked()
            },
        }
    }
}

/// The violation for a refusal with the given status, error title and
/// cause.
pub open spec fn violation_of(
    v: SecurityViolation,
    status: u16,
    title: Seq<char>,
    e: SecurityError,
    action: SecurityMetricAction,
) -> bool {
    &&& v.status == status
    &&& v.error_body@ == error_body(title, security_error_text(e), status)
    &&& v.metric_action == action
}

fn violation(status: u16, title: &str, e: SecurityError, action: SecurityMetricAction) -> (r: SecurityViolation)
    ensures
        violation_of(r, status, title@, e, action),
{
    let message = e.message();
    SecurityViolation {
        status,
        error_body: build_error_body(title, message.as_str(), status),
        metric_action: action,
    }
}

/// Checks the URI length: `None` when it is within `limit` bytes, else a
/// 414 "URI Too Long".
pub fn check_uri_length(request_id: &str, client_ip: &str, uri: &str, limit: usize) -> (r: Option<
    SecurityViolation,
>)
    ensures
        uri.len() <= limit ==> r is None,
        uri.len() > limit ==> (r matches Some(v) && violation_of(
            v,
            414,
            "URI Too Long"@,
            SecurityError::UriTooLong { length: uri.len(), limit },
            SecurityMetricAction::UriTooLong,
        )),
{
    match sec::validate_uri_length(uri, limit) {
        Err(e) => Some(violation(414, "URI Too Long", e, SecurityMetricAction::UriTooLong)),
        Ok(()) => None,
    }
}

/// Checks the total header size: `None` within `limit`, else a 431
/// "Request Header Fields Too Large".
pub fn check_header_size(request_id: &str, client_ip: &str, total_size: usize, limit: usize) -> (r:
    Option<SecurityViolation>)
    ensures
        total_size <= limit ==> r is None,
        total_size > limit ==> (r matches Some(v) && violation_of(
            v,
            431,
            "Request Header Fields Too Large"@,
            SecurityError::HeadersTooLarge { size: total_size, limit },
            SecurityMetricAction::HeadersTooLarge,
        )),
{
    match sec::validate_header_size(total_size, limit) {
        Err(e) => Some(
            violation(431, "Request Header Fields Too Large", e, SecurityMetricAction::HeadersTooLarge),
        ),
        Ok(()) => None,
    }
}

/// Checks the declared body size: `None` when absent or within `limit`,
/// else a 413 "Payload Too Large".
pub fn check_body_size(
    request_id: &str,
    client_ip: &str,
    content_length: Option<usize>,
    limit: usize,
) -> (r: Option<SecurityViolation>)
    ensures
        match content_length {
            Some(size) => if size > limit {
                r matches Some(v) && violation_of(
                    v,
                    413,
                    "Payload Too Large"@,
                    SecurityError::PayloadTooLarge { size, limit },
                    SecurityMetricAction::PayloadTooLarge,
                )
            } else {
                r is None
            },
            None => r is None,
        },
{
    match sec::validate_body_size(content_length, limit) {
        Err(e) => Some(violation(413, "Payload Too Large", e, SecurityMetricAction::PayloadTooLarge)),
        Ok(()) => None,
    }
}

/// Checks the raw URI for path traversal: a 400 "Bad Request" when found.
pub fn check_path_traversal(request_id: &str, client_ip: &str, uri: &str) -> (r: Option<
    SecurityViolation,
>)
    ensures
        !contains_any(uri@, traversal_patterns()) ==> r is None,
        contains_any(uri@, traversal_patterns()) ==> (r matches Some(v) && violation_of(
            v,
            400,
            "Bad Request"@,
            SecurityError::PathTraversal,
            SecurityMetricAction::PathTraversalBlocked,
        )),
{
    match sec::check_path_traversal(uri) {
        Err(e) => Some(violation(400, "Bad Request", e, SecurityMetricAction::PathTraversalBlocked)),
        Ok(()) => None,
    }
}

/// Checks the raw URI for SQL injection: a 400 "Bad Request" when found.
pub fn check_sql_injection(request_id: &str, client_ip: &str, uri: &str) -> (r: Option<
    SecurityViolation,
>)
    ensures
        !contains_any(uri@, sql_patterns()) ==> r is None,
        contains_any(uri@, sql_patterns()) ==> (r matches Some(v) && violation_of(
            v,
            400,
            "Bad Request"@,
            SecurityError::SqlInjection,
            SecurityMetricAction::SqlInjectionBlocked,
        )),
{
    match sec::check_sql_injection(uri) {
        Err(e) => Some(violation(400, "Bad Request", e, SecurityMetricAction::SqlInjectionBlocked)),
        Ok(()) => None,
    }
}

/// Whether the declared body exceeds the limit.
pub open spec fn body_too_large(content_length: Option<usize>, limit: usize) -> bool {
    content_length matches Some(size) && size > limit
}

/// Runs every check in order (URI length, header size, body size, path
/// traversal, SQL injection) and reports the first that fails, or `None`
/// when the request passes them all.
pub fn validate_request_security(
    request_id: &str,
    client_ip: &str,
    uri: &str,
    total_header_size: usize,
    content_length: Option<usize>,
    limits: &SecurityLimits,
) -> (r: Option<SecurityViolation>)
    ensures
        uri.len() > limits.max_uri_length ==> (r matches Some(v) && v.status == 414
            && v.metric_action == SecurityMetricAction::UriTooLong),
        uri.len() <= limits.max_uri_length && total_header_size > limits.max_header_size ==> (r matches Some(v)
            && v.status == 431 && v.metric_action == SecurityMetricAction::HeadersTooLarge),
        uri.len() <= limits.max_uri_length && total_header_size <= limits.max_header_size
            && body_too_large(content_length, limits.max_body_size) ==> (r matches Some(v) && v.status
            == 413 && v.metric_action == SecurityMetricAction::PayloadTooLarge),
        uri.len() <= limits.max_uri_length && total_header_size <= limits.max_header_size
            && !body_too_large(content_length, limits.max_body_size) && contains_any(
            uri@,
            traversal_patterns(),
        ) ==> (r matches Some(v) && v.status == 400 && v.metric_action
            == SecurityMetricAction::PathTraversalBlocked),
        uri.len() <= limits.max_uri_length && total_header_size <= limits.max_header_size
            && !body_too_large(content_length, limits.max_body_size) && !contains_any(
            uri@,
            traversal_patterns(),
        ) && contains_any(uri@, sql_patterns()) ==> (r matches Some(v) && v.status == 400
            && v.metric_action == SecurityMetricAction::SqlInjectionBlocked),
        r is None <==> (uri.len() <= limits.max_uri_length && total_header_size
            <= limits.max_header_size && !body_too_large(content_length, limits.max_body_size)
            && !contains_any(uri@, traversal_patterns()) && !contains_any(uri@, sql_patterns())),
        r matches Some(v) ==> (v.status == 414 && violation_of(
            v,
            414,
            "URI Too Long"@,
            SecurityError::UriTooLong { length: uri.len(), limit: limits.max_uri_length },
            SecurityMetricAction::UriTooLong,
        )) || (v.status == 431 && violation_of(
            v,
            431,
            "Request Header Fields Too Large"@,
            SecurityError::HeadersTooLarge {
                size: total_header_size,
                limit: limits.max_header_size,
            },
            SecurityMetricAction::HeadersTooLarge,
        )) || (v.status == 413 && (content_length matches Some(size) && violation_of(
            v,
            413,
            "Payload Too Large"@,
            SecurityError::PayloadTooLarge { size, limit: limits.max_body_size },
            SecurityMetricAction::PayloadTooLarge,
        ))) || (v.status == 400 && v.metric_action == SecurityMetricAction::PathTraversalBlocked
            && violation_of(
            v,
            400,
            "Bad Request"@,
            SecurityError::PathTraversal,
            SecurityMetricAction::PathTraversalBlocked,
        )) || (v.status == 400 && v.metric_action == SecurityMetricAction::SqlInjectionBlocked
            && violation_of(
            v,
            400,
            "Bad Request"@,
            SecurityError::SqlInjection,
            SecurityMetricAction::SqlInjectionBlocked,
        )),
{
    if let Some(v) = check_uri_length(request_id, client_ip, uri, limits.max_uri_length) {
        return Some(v);
    }
    if let Some(v) = check_header_size(request_id, client_ip, total_header_size, limits.max_header_size) {
        return Some(v);
    }
    if let Some(v) = check_body_size(request_id, client_ip, content_length, limits.max_body_size) {
        return Some(v);
    }
    if let Some(v) = check_path_traversal(request_id, client_ip, uri) {
        return Some(v);
    }
    if let Some(v) = check_sql_injection(request_id, client_ip, uri) {
        return Some(v);
    }
    None
}

} // verus!
