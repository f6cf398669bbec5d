//! Observability configuration: request logging, slow query logging and
//! the tracing exporter.

use vstd::prelude::*;
use crate::text::{fold_of, fold_seq, chars_eq, chars_of, to_string};

verus! {

/// The headers redacted in request logs by default.
pub open spec fn default_redacted() -> Seq<Seq<char>> {
    seq!["authorization"@, "x-api-key"@, "cookie"@, "set-cookie"@, "x-amz-security-token"@]
}

/// The headers redacted in request logs by default: authorization,
/// x-api-key, cookie, set-cookie and x-amz-security-token.
pub fn default_redact_headers() -> (r: Vec<String>)
    ensures
        r@.len() == default_redacted().len(),
        forall|i: int| 0 <= i < r@.len() ==> (#[trigger] r@[i])@ == default_redacted()[i],
{
    let r = vec![
        to_string("authorization"),
        to_string("x-api-key"),
        to_string("cookie"),
        to_string("set-cookie"),
        to_string("x-amz-security-token"),
    ];
    r
}

/// Request and response logging settings.
#[derive(Debug, Clone)]
pub struct RequestLoggingConfig {
    /// Log requests.
    pub log_requests: bool,
    /// Log responses.
    pub log_responses: bool,
    /// Path patterns to include (glob patterns, empty = all).
    pub include_paths: Vec<String>,
    /// Path patterns to exclude (glob patterns).
    pub exclude_paths: Vec<String>,
    /// Status codes to log (empty = all).
    pub status_codes: Vec<u16>,
    /// Headers whose values are redacted.
    pub redact_headers: Vec<String>,
    /// Log request bodies.
    pub log_request_body: bool,
    /// Log response bodies.
    pub log_response_body: bool,
    /// Largest body logged, in bytes.
    pub max_body_size: usize,
}

impl Default for RequestLoggingConfig {
    /// Nothing logged; the default redacted headers; bodies up to 1 KiB.
    fn default() -> (r: Self)
        ensures
            !r.log_requests,
            !r.log_responses,
            r.include_paths@.len() == 0,
            r.exclude_paths@.len() == 0,
            r.status_codes@.len() == 0,
            r.redact_headers@.len() == default_redacted().len(),
            forall|i: int|
                0 <= i < r.redact_headers@.len() ==> (#[trigger] r.redact_headers@[i])@
                    == default_redacted()[i],
            !r.log_request_body,
            !r.log_response_body,
            r.max_body_size == 1024,
    {
        RequestLoggingConfig {
            log_requests: false,
            log_responses: false,
            include_paths: Vec::new(),
            exclude_paths: Vec::new(),
            status_codes: Vec::new(),
            redact_headers: default_redact_headers(),
            log_request_body: false,
            log_response_body: false,
            max_body_size: 1024,
        }
    }
}

/// Slow query logging settings.
#[derive(Debug, Clone)]
pub struct SlowQueryConfig {
    /// Log slow queries.
    pub enabled: bool,
    /// Requests at least this long are slow, in milliseconds.
    pub threshold_ms: u64,
    /// Include the per-phase timing breakdown.
    pub include_breakdown: bool,
    /// Log level: error, warn, info or debug.
    pub log_level: String,
}

impl Default for SlowQueryConfig {
    /// Disabled; one second; with breakdown; at warn level.
    fn default() -> (r: Self)
        ensures
            !r.enabled,
            r.threshold_ms == 1000,
            r.include_breakdown,
            r.log_level@ == "warn"@,
    {
        SlowQueryConfig {
            enabled: false,
            threshold_ms: 1000,
            include_breakdown: true,
            log_level: to_string("warn"),
        }
    }
}

/// Tracing exporter.
#[derive(Debug, Clone, Copy, PartialEq, Eq, Structural)]
pub enum ExporterType {
    Otlp,
    Jaeger,
    Zipkin,
    NoExporter,
}

/// The exporter a configured name selects, in any letter case; an unknown
/// or empty name selects none.
pub open spec fn exporter_named(name: Seq<char>) -> ExporterType {
    let n = fold_seq(name);
    if n == "otlp"@ {
        ExporterType::Otlp
    } else if n == "jaeger"@ {
        ExporterType::Jaeger
    } else if n == "zipkin"@ {
        ExporterType::Zipkin
    } else {
        ExporterType::NoExporter
    }
}

/// The exporter a configured name selects.
pub fn parse_exporter_type(name: &str) -> (r: ExporterType)
    ensures
        r == exporter_named(name@),
{
    let n = fold_of(name);
    if chars_eq(n.as_slice(), chars_of("otlp").as_slice()) {
        ExporterType::Otlp
    } else if chars_eq(n.as_slice(), chars_of("jaeger").as_slice()) {
        ExporterType::Jaeger
    } else if chars_eq(n.as_slice(), chars_of("zipkin").as_slice()) {
        ExporterType::Zipkin
    } else {
        ExporterType::NoExporter
    }
}

/// The complaint about an exporter without its endpoint, if any.
pub open spec fn missing_endpoint(
    exporter: ExporterType,
    has_otlp: bool,
    has_jaeger: bool,
    has_zipkin: bool,
) -> Option<Seq<char>> {
    match exporter {
        ExporterType::Otlp => if has_otlp {
            None
        } else {
            Some("OTLP exporter requires otlp_endpoint"@)
        },
        ExporterType::Jaeger => if has_jaeger {
            None
        } else {
            Some("Jaeger exporter requires jaeger_endpoint"@)
        },
        ExporterType::Zipkin => if has_zipkin {
            None
        } else {
            Some("Zipkin exporter requires zipkin_endpoint"@)
        },
        ExporterType::NoExporter => None,
    }
}

/// Checks that the selected exporter has its endpoint configured.
pub fn check_exporter_endpoint(
    exporter: ExporterType,
    has_otlp: bool,
    has_jaeger: bool,
    has_zipkin: bool,
) -> (r: Result<(), String>)
    ensures
        match missing_endpoint(exporter, has_otlp, has_jaeger, has_zipkin) {
            Some(m) => r matches Err(e) && e@ == m,
            None => r is Ok,
        },
{
    match exporter {
        ExporterType::Otlp => if has_otlp {
            Ok(())
        } else {
            Err(to_string("OTLP exporter requires otlp_endpoint"))
        },
        ExporterType::Jaeger => if has_jaeger {
            Ok(())
        } else {
            Err(to_string("Jaeger exporter requires jaeger_endpoint"))
        },
        ExporterType::Zipkin => if has_zipkin {
            Ok(())
        } else {
            Err(to_string("Zipkin exporter requires zipkin_endpoint"))
        },
        ExporterType::NoExporter => Ok(()),
    }
}

} // verus!
