//! What to record and log when a request completes: circuit breaker
//! actions, S3 error details, audit data and log levels.

use vstd::prelude::*;
use crate::text::{to_string, parse_unsigned, parse_unsigned_str, decimal, lemma_parse_decimal};
use crate::labels::{label_increment, sample_appended};
use crate::metrics::{Metrics, MetricsView};

verus! {

/// Action to take on circuit breaker based on response.
#[derive(Debug, Clone, Copy, PartialEq, Eq)]
pub enum CircuitBreakerAction {
    /// Record a success (2xx response).
    RecordSuccess,
    /// Record a failure (5xx response).
    RecordFailure,
    /// No action needed (3xx/4xx response or no circuit breaker).
    NoAction,
}

/// S3 error information extracted from response headers.
#[derive(Debug, Clone)]
pub struct S3ErrorInfo {
    /// S3 error code from x-amz-error-code header.
    pub error_code: Option<String>,
    /// S3 error message from x-amz-error-message header.
    pub error_message: Option<String>,
}

impl Default for S3ErrorInfo {
    fn default() -> (r: Self)
        ensures
            r.error_code is None,
            r.error_message is None,
    {
        S3ErrorInfo { error_code: None, error_message: None }
    }
}

impl S3ErrorInfo {
    /// Check if any error information is available.
    pub fn has_error(&self) -> (r: bool)
        ensures
            r == (self.error_code is Some || self.error_message is Some),
    {
        self.error_code.is_some() || self.error_message.is_some()
    }
}

/// Data for audit log finalization.
#[derive(Debug, Clone)]
pub struct AuditLogData {
    /// HTTP status code.
    pub status_code: u16,
    /// Response content length.
    pub content_length: u64,
}

/// Replica failover log information.
#[derive(Debug, Clone)]
pub struct ReplicaFailoverInfo {
    /// Bucket name.
    pub bucket: String,
    /// Replica identifier.
    pub replica: String,
    /// Status description.
    pub status: String,
}

/// 2xx responses count as circuit breaker successes.
pub open spec fn cb_success_spec(status: u16) -> bool {
    200 <= status && status < 300
}

/// 5xx (and higher) responses count as circuit breaker failures.
pub open spec fn cb_failure_spec(status: u16) -> bool {
    status >= 500
}

/// Determine circuit breaker action based on HTTP status code: 2xx records
/// a success, 5xx a failure, anything else nothing.
pub fn determine_circuit_breaker_action(status_code: u16) -> (r: CircuitBreakerAction)
    ensures
        cb_success_spec(status_code) ==> r is RecordSuccess,
        cb_failure_spec(status_code) ==> r is RecordFailure,
        !cb_success_spec(status_code) && !cb_failure_spec(status_code) ==> r is NoAction,
{
    if is_circuit_breaker_success(status_code) {
        CircuitBreakerAction::RecordSuccess
    } else if is_circuit_breaker_failure(status_code) {
        CircuitBreakerAction::RecordFailure
    } else {
        CircuitBreakerAction::NoAction
    }
}

/// Check if status code indicates a circuit breaker success.
pub fn is_circuit_breaker_success(status_code: u16) -> (r: bool)
    ensures
        r == cb_success_spec(status_code),
{
    200 <= status_code && status_code < 300
}

/// Check if status code indicates a circuit breaker failure.
pub fn is_circuit_breaker_failure(status_code: u16) -> (r: bool)
    ensures
        r == cb_failure_spec(status_code),
{
    status_code >= 500
}

/// Extract S3 error information from the values of the x-amz-error-code
/// and x-amz-error-message headers.
pub fn build_s3_error_info(error_code: Option<&str>, error_message: Option<&str>) -> (r:
    S3ErrorInfo)
    ensures
        r.error_code is Some == error_code is Some,
        r.error_code is Some ==> r.error_code.unwrap()@ == error_code.unwrap()@,
        r.error_message is Some == error_message is Some,
        r.error_message is Some ==> r.error_message.unwrap()@ == error_message.unwrap()@,
{
    S3ErrorInfo {
        error_code: match error_code {
            Some(s) => Some(to_string(s)),
            None => None,
        },
        error_message: match error_message {
            Some(s) => Some(to_string(s)),
            None => None,
        },
    }
}

/// Check if a status code should trigger S3 error extraction: only 4xx and
/// 5xx responses may carry S3 error headers.
pub fn should_extract_s3_error(status_code: u16) -> (r: bool)
    ensures
        r == (status_code >= 400),
{
    status_code >= 400
}

/// Prepare audit log finalization data.
pub fn prepare_audit_data(status_code: u16, content_length: u64) -> (r: AuditLogData)
    ensures
        r.status_code == status_code,
        r.content_length == content_length,
{
    AuditLogData { status_code, content_length }
}

/// The content length a header value gives: its value as an unsigned
/// 64-bit integer, or 0 when absent or not a valid number.
pub open spec fn content_length_spec(value: Option<Seq<char>>) -> u64 {
    match value {
        Some(s) => match parse_unsigned(s, u64::MAX as nat) {
            Some(v) => v as u64,
            None => 0,
        },
        None => 0,
    }
}

/// Parse content length from header value, or 0 if parsing fails.
pub fn parse_content_length(content_length_str: Option<&str>) -> (r: u64)
    ensures
        r == content_length_spec(
            match content_length_str {
                Some(s) => Some(s@),
                None => None,
            },
        ),
{
    match content_length_str {
        Some(s) => match parse_unsigned_str(s, u64::MAX) {
            Some(v) => v,
            None => 0,
        },
        None => 0,
    }
}

/// Build replica failover information for logging.
pub fn build_replica_failover_info(bucket: &str, replica: &str, status: &str) -> (r:
    ReplicaFailoverInfo)
    ensures
        r.bucket@ == bucket@,
        r.replica@ == replica@,
        r.status@ == status@,
{
    ReplicaFailoverInfo {
        bucket: to_string(bucket),
        replica: to_string(replica),
        status: to_string(status),
    }
}

/// Log level for request completion.
#[derive(Debug, Clone, Copy, PartialEq, Eq)]
pub enum RequestLogLevel {
    /// Info level - successful requests.
    Info,
    /// Warn level - client errors or S3 errors.
    Warn,
    /// Error level - server errors.
    Error,
}

/// Determine appropriate log level based on status code: 5xx and above is
/// an error, 4xx a warning, anything else information.
pub fn determine_log_level(status_code: u16) -> (r: RequestLogLevel)
    ensures
        status_code >= 500 ==> r is Error,
        400 <= status_code <= 499 ==> r is Warn,
        status_code < 400 ==> r is Info,
{
    if status_code >= 500 {
        RequestLogLevel::Error
    } else if status_code >= 400 {
        RequestLogLevel::Warn
    } else {
        RequestLogLevel::Info
    }
}

/// What the proxy does when a request completes, besides counting it.
#[derive(Debug, Clone)]
pub struct RequestCompletion {
    /// The status of the answer (500 when none was written).
    pub status_code: u16,
    /// What to record on the bucket's circuit breaker.
    pub breaker_action: CircuitBreakerAction,
    /// The S3 error details to log (only for 4xx and 5xx answers).
    pub s3_error: S3ErrorInfo,
    /// The level of the completion log line.
    pub log_level: RequestLogLevel,
}

/// The status a completed request counts under: the status written, or
/// 500 when no answer was written.
pub open spec fn completed_status(written: Option<u16>) -> u16 {
    match written {
        Some(s) => s,
        None => 500,
    }
}

/// The metrics after a completed request: its status, its method and its
/// duration are counted; for a routed request also its bucket and the
/// bucket's latency; and it leaves the active connections.
pub open spec fn completion_recorded(
    before: MetricsView,
    after: MetricsView,
    status: u16,
    method: Seq<char>,
    duration_us: u64,
    bucket: Option<Seq<char>>,
) -> bool {
    &&& after == MetricsView {
        status_counts: label_increment(before.status_counts, decimal(status as nat)),
        method_counts: label_increment(before.method_counts, method),
        durations: before.durations.push(duration_us),
        bucket_counts: after.bucket_counts,
        bucket_latencies: after.bucket_latencies,
        active_connections: vstd::wrapping::u64_specs::wrapping_sub(before.active_connections, 1),
        ..before
    }
    &&& match bucket {
        Some(b) => {
            &&& after.bucket_counts == label_increment(before.bucket_counts, b)
            &&& sample_appended(before.bucket_latencies, after.bucket_latencies, b, duration_us)
        },
        None => after.bucket_counts == before.bucket_counts && after.bucket_latencies
            == before.bucket_latencies,
    }
}

/// The completion of a request: counts it in the metrics (see
/// `completion_recorded`), and says what to record on the bucket's
/// circuit breaker (nothing without a routed bucket or a breaker), which
/// S3 error details to log (those of a 4xx or 5xx answer) and at which
/// level.
pub fn complete_request(
    metrics: &mut Metrics,
    written_status: Option<u16>,
    method: &str,
    duration_us: u64,
    bucket: Option<&str>,
    bucket_has_breaker: bool,
    s3_error_code: Option<&str>,
    s3_error_message: Option<&str>,
) -> (r: RequestCompletion)
    ensures
        r.status_code == completed_status(written_status),
        completion_recorded(
            old(metrics)@,
            final(metrics)@,
            r.status_code,
            method@,
            duration_us,
            match bucket {
                Some(b) => Some(b@),
                None => None,
            },
        ),
        bucket is Some && bucket_has_breaker && cb_success_spec(r.status_code) ==> r.breaker_action is RecordSuccess,
        bucket is Some && bucket_has_breaker && cb_failure_spec(r.status_code) ==> r.breaker_action is RecordFailure,
        !(bucket is Some && bucket_has_breaker) || (!cb_success_spec(r.status_code) && !cb_failure_spec(
            r.status_code,
        )) ==> r.breaker_action is NoAction,
        r.status_code >= 400 ==> (r.s3_error.error_code is Some == s3_error_code is Some) && (
        r.s3_error.error_message is Some == s3_error_message is Some) && (r.s3_error.error_code is Some
            ==> r.s3_error.error_code.unwrap()@ == s3_error_code.unwrap()@) && (r.s3_error.error_message is Some
            ==> r.s3_error.error_message.unwrap()@ == s3_error_message.unwrap()@),
        r.status_code < 400 ==> r.s3_error.error_code is None && r.s3_error.error_message is None,
        r.status_code >= 500 ==> r.log_level is Error,
        400 <= r.status_code <= 499 ==> r.log_level is Warn,
        r.status_code < 400 ==> r.log_level is Info,
{
    let status_code = match written_status {
        Some(s) => s,
        None => 500,
    };
    metrics.increment_status_count(status_code);
    metrics.increment_method_count(method);
    metrics.record_duration_us(duration_us);
    let breaker_action = match bucket {
        Some(b) => {
            metrics.increment_bucket_count(b);
            metrics.record_bucket_latency_us(b, duration_us);
            if bucket_has_breaker {
                determine_circuit_breaker_action(status_code)
            } else {
                CircuitBreakerAction::NoAction
            }
        },
        None => CircuitBreakerAction::NoAction,
    };
    metrics.decrement_active_connections();
    let s3_error = if should_extract_s3_error(status_code) {
        build_s3_error_info(s3_error_code, s3_error_message)
    } else {
        S3ErrorInfo { error_code: None, error_message: None }
    };
    RequestCompletion { status_code, breaker_action, s3_error, log_level: determine_log_level(status_code) }
}

/// Law: a status never counts both as a circuit breaker success and a
/// failure, and every status that counts as a failure is logged as an
/// error and has its S3 error details extracted.
pub proof fn law_status_classes_consistent(status: u16)
    ensures
        !(cb_success_spec(status) && cb_failure_spec(status)),
        cb_failure_spec(status) ==> status >= 500 && status >= 400,
        cb_success_spec(status) ==> status < 400,
{
}

/// Law: a content length written in decimal reads back as itself.
pub proof fn law_content_length_round_trip(n: u64)
    ensures
        content_length_spec(Some(decimal(n as nat))) == n,
{
    lemma_parse_decimal(n as nat, u64::MAX as nat);
}

} // verus!
