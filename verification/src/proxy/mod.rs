//! Request-processing logic of the proxy, kept free of I/O: each function
//! takes plain values and returns a value that says what to do.

pub mod error_handler;
pub mod request_filter;
pub mod logging;
pub mod upstream;
pub mod security;
pub mod helpers;
pub mod special_endpoints;
pub mod response_handler;
pub mod cache_handler;
pub mod routing_auth;
pub mod init;
pub mod filter;

use vstd::prelude::*;
use crate::json::{build_error_body, error_body};
use crate::text::{decimal, has_prefix, push_str, starts_with, str_eq, to_string, u64_to_decimal};
use crate::proxy::request_filter::ResourceCheckResult;
use crate::metrics::{Metrics, MetricsView};
use crate::labels::wrap_inc;
use crate::proxy::routing_auth::with_status;

verus! {

/// What the read-only gate decides for a request's method.
#[derive(Debug, Clone, Copy, PartialEq, Eq, Structural)]
pub enum MethodCheck {
    /// The request goes on.
    Allowed,
    /// A CORS pre-flight (`OPTIONS`): answered at once with the allowed
    /// methods and headers.
    Preflight,
    /// Refused with 405: the proxy only reads.
    NotAllowed,
}

/// The endpoints that take their own methods: health, readiness,
/// metrics, configuration reload (`POST`) and the cache administration
/// endpoints (`POST` or `GET`).
pub open spec fn special_route(path: Seq<char>, method: Seq<char>) -> bool {
    ||| has_prefix(path, "/health"@)
    ||| has_prefix(path, "/ready"@)
    ||| has_prefix(path, "/metrics"@)
    ||| (path == "/admin/reload"@ && method == "POST"@)
    ||| (has_prefix(path, "/admin/cache/"@) && (method == "POST"@ || method == "GET"@))
}

/// The methods of a read-only S3 proxy: GET, HEAD and OPTIONS.
pub open spec fn read_method(method: Seq<char>) -> bool {
    method == "GET"@ || method == "HEAD"@ || method == "OPTIONS"@
}

/// Outside the special endpoints only GET, HEAD and OPTIONS go on; an
/// OPTIONS request that goes on is a pre-flight.
pub open spec fn method_decision(path: Seq<char>, method: Seq<char>) -> MethodCheck {
    if !special_route(path, method) && !read_method(method) {
        MethodCheck::NotAllowed
    } else if method == "OPTIONS"@ {
        MethodCheck::Preflight
    } else {
        MethodCheck::Allowed
    }
}

/// The read-only gate: which requests pass on to the proxy, which are
/// CORS pre-flights, and which are refused for their method.
pub fn check_method(path: &str, method: &str) -> (r: MethodCheck)
    ensures
        r == method_decision(path@, method@),
{
    proof {
        reveal_strlit("GET");
        reveal_strlit("HEAD");
        reveal_strlit("OPTIONS");
        reveal_strlit("POST");
    }
    let special = starts_with(path, "/health") || starts_with(path, "/ready") || starts_with(path, "/metrics")
        || (str_eq(path, "/admin/reload") && str_eq(method, "POST")) || (starts_with(path, "/admin/cache/")
        && (str_eq(method, "POST") || str_eq(method, "GET")));
    let read = str_eq(method, "GET") || str_eq(method, "HEAD") || str_eq(method, "OPTIONS");
    if !special && !read {
        MethodCheck::NotAllowed
    } else if str_eq(method, "OPTIONS") {
        MethodCheck::Preflight
    } else {
        MethodCheck::Allowed
    }
}

/// The message of a 405 refusal.
pub open spec fn method_not_allowed_message(method: Seq<char>) -> Seq<char> {
    "Method "@ + method
        + " is not allowed. This is a read-only S3 proxy. Allowed methods: GET, HEAD, OPTIONS"@
}

/// The JSON body of a 405 refusal of `method`.
pub fn method_not_allowed_body(method: &str) -> (r: String)
    ensures
        r@ == error_body("Method Not Allowed"@, method_not_allowed_message(method@), 405),
{
    let mut message = to_string("Method ");
    push_str(&mut message, method);
    push_str(&mut message, " is not allowed. This is a read-only S3 proxy. Allowed methods: GET, HEAD, OPTIONS");
    build_error_body("Method Not Allowed", message.as_str(), 405)
}

/// The headers of the answer to a pre-flight: the allowed methods (also
/// as `Allow`), the allowed request headers, a cache lifetime of one day,
/// and an empty body.
pub open spec fn preflight_header_list() -> Seq<(Seq<char>, Seq<char>)> {
    seq![
        ("Allow"@, "GET, HEAD, OPTIONS"@),
        ("Access-Control-Allow-Methods"@, "GET, HEAD, OPTIONS"@),
        ("Access-Control-Allow-Headers"@, "Authorization, Content-Type, Range"@),
        ("Access-Control-Max-Age"@, "86400"@),
        ("Content-Length"@, "0"@),
    ]
}

/// The headers of the answer to a pre-flight, in order.
pub fn preflight_headers() -> (r: Vec<(String, String)>)
    ensures
        r@.len() == preflight_header_list().len(),
        forall|i: int|
            0 <= i < r@.len() ==> (#[trigger] r@[i]).0@ == preflight_header_list()[i].0 && r@[i].1@
                == preflight_header_list()[i].1,
{
    let mut r: Vec<(String, String)> = Vec::new();
    r.push((to_string("Allow"), to_string("GET, HEAD, OPTIONS")));
    r.push((to_string("Access-Control-Allow-Methods"), to_string("GET, HEAD, OPTIONS")));
    r.push((to_string("Access-Control-Allow-Headers"), to_string("Authorization, Content-Type, Range")));
    r.push((to_string("Access-Control-Max-Age"), to_string("86400")));
    r.push((to_string("Content-Length"), to_string("0")));
    r
}

/// An answer given at once, without going upstream: its status, headers
/// and body.
#[derive(Debug, Clone)]
pub struct GateAnswer {
    pub status: u16,
    pub headers: Vec<(String, String)>,
    pub body: String,
}

/// The length in bytes of a text, written in decimal.
pub open spec fn byte_length_text(body: Seq<char>) -> Seq<char> {
    decimal(vstd::utf8::encode_utf8(body).len())
}

/// The headers of a 405 refusal with body `body`.
pub open spec fn method_refusal_header_list(body: Seq<char>) -> Seq<(Seq<char>, Seq<char>)> {
    seq![
        ("Content-Type"@, "application/json"@),
        ("Allow"@, "GET, HEAD, OPTIONS"@),
        ("Content-Length"@, byte_length_text(body)),
    ]
}

/// The `Content-Length` header of a body.
fn content_length_header(body: &String) -> (r: (String, String))
    ensures
        r.0@ == "Content-Length"@,
        r.1@ == byte_length_text(body@),
{
    let bytes = body.as_str().as_bytes();
    let n = bytes.len();
    (to_string("Content-Length"), u64_to_decimal(n as u64))
}

/// Pairs of strings as text.
pub open spec fn header_pairs(v: Seq<(String, String)>) -> Seq<(Seq<char>, Seq<char>)> {
    v.map_values(|h: (String, String)| (h.0@, h.1@))
}

/// The read-only gate of a request: no answer when the request goes on; a
/// pre-flight is answered 200 with the pre-flight headers and no body; a
/// refused method is answered 405 with its JSON body. An answer counts
/// its status.
pub fn answer_method_gate(path: &str, method: &str, metrics: &mut Metrics) -> (r: Option<GateAnswer>)
    ensures
        method_decision(path@, method@) is Allowed ==> r is None && final(metrics)@ == old(metrics)@,
        method_decision(path@, method@) is Preflight ==> (r matches Some(a) && a.status == 200 && header_pairs(
            a.headers@,
        ) == preflight_header_list() && a.body@ == Seq::<char>::empty() && final(metrics)@ == with_status(
            old(metrics)@,
            200,
        )),
        method_decision(path@, method@) is NotAllowed ==> (r matches Some(a) && a.status == 405
            && header_pairs(a.headers@) == method_refusal_header_list(a.body@) && a.body@ == error_body(
            "Method Not Allowed"@,
            method_not_allowed_message(method@),
            405,
        ) && final(metrics)@ == with_status(old(metrics)@, 405)),
{
    match check_method(path, method) {
        MethodCheck::Allowed => None,
        MethodCheck::Preflight => {
            let headers = preflight_headers();
            assert(header_pairs(headers@) =~= preflight_header_list());
            metrics.increment_status_count(200);
            Some(GateAnswer { status: 200, headers, body: String::new() })
        },
        MethodCheck::NotAllowed => {
            let body = method_not_allowed_body(method);
            let mut headers: Vec<(String, String)> = Vec::new();
            headers.push((to_string("Content-Type"), to_string("application/json")));
            headers.push((to_string("Allow"), to_string("GET, HEAD, OPTIONS")));
            headers.push(content_length_header(&body));
            assert(header_pairs(headers@) =~= method_refusal_header_list(body@));
            metrics.increment_status_count(405);
            Some(GateAnswer { status: 405, headers, body })
        },
    }
}

/// The message of a 503 refusal for want of resources: at the limit of
/// concurrent requests, retry after 5 seconds; under heavy load, after 10.
pub open spec fn resource_refusal_message(check: ResourceCheckResult) -> Seq<char> {
    match check {
        ResourceCheckResult::ConcurrencyLimitReached => "Server has reached maximum concurrent request limit. Please retry after 5 seconds."@,
        _ => "Server is under heavy load. Please retry after 10 seconds."@,
    }
}

/// The headers of a 503 refusal for want of resources.
pub open spec fn resource_refusal_header_list(retry_after: Seq<char>, body: Seq<char>) -> Seq<(Seq<char>, Seq<char>)> {
    seq![
        ("Content-Type"@, "application/json"@),
        ("Retry-After"@, retry_after),
        ("Content-Length"@, byte_length_text(body)),
    ]
}

/// The first check of a request, before anything else: with resources
/// available the request goes on; at the limit of concurrent requests it
/// is refused with 503, `Retry-After: 5`, and counted as a concurrency
/// rejection; under heavy load it is refused with 503 and
/// `Retry-After: 10`.
pub fn answer_resource_check(check: ResourceCheckResult, metrics: &mut Metrics) -> (r: Option<GateAnswer>)
    ensures
        check is Available ==> r is None && final(metrics)@ == old(metrics)@,
        check is ConcurrencyLimitReached ==> (r matches Some(a) && a.status == 503 && a.body@ == error_body(
            "Service Temporarily Unavailable"@,
            resource_refusal_message(check),
            503,
        ) && header_pairs(a.headers@) == resource_refusal_header_list("5"@, a.body@) && final(metrics)@
            == (MetricsView {
            concurrency_limit_rejections: wrap_inc(old(metrics)@.concurrency_limit_rejections),
            ..old(metrics)@
        })),
        check is ResourceExhausted ==> (r matches Some(a) && a.status == 503 && a.body@ == error_body(
            "Service Temporarily Unavailable"@,
            resource_refusal_message(check),
            503,
        ) && header_pairs(a.headers@) == resource_refusal_header_list("10"@, a.body@) && final(metrics)@
            == old(metrics)@),
{
    match check {
        ResourceCheckResult::Available => None,
        ResourceCheckResult::ConcurrencyLimitReached => {
            metrics.increment_concurrency_limit_rejection();
            let body = build_error_body(
                "Service Temporarily Unavailable",
                "Server has reached maximum concurrent request limit. Please retry after 5 seconds.",
                503,
            );
            let mut headers: Vec<(String, String)> = Vec::new();
            headers.push((to_string("Content-Type"), to_string("application/json")));
            headers.push((to_string("Retry-After"), to_string("5")));
            headers.push(content_length_header(&body));
            assert(header_pairs(headers@) =~= resource_refusal_header_list("5"@, body@));
            Some(GateAnswer { status: 503, headers, body })
        },
        ResourceCheckResult::ResourceExhausted => {
            let body = build_error_body(
                "Service Temporarily Unavailable",
                "Server is under heavy load. Please retry after 10 seconds.",
                503,
            );
            let mut headers: Vec<(String, String)> = Vec::new();
            headers.push((to_string("Content-Type"), to_string("application/json")));
            headers.push((to_string("Retry-After"), to_string("10")));
            headers.push(content_length_header(&body));
            assert(header_pairs(headers@) =~= resource_refusal_header_list("10"@, body@));
            Some(GateAnswer { status: 503, headers, body })
        },
    }
}

} // verus!
