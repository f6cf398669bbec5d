//! The Prometheus export seen as metric blocks: each metric contributes
//! its `# HELP` line, its `# TYPE` line and its samples, in a fixed order.

use vstd::prelude::*;
use crate::metrics::{MetricsView, prometheus_text};
use crate::prometheus::{header, scalar_line, labeled_lines, flag_lines, pair_lines, pair_flag_lines,
    failover_lines, duration_summary, replica_summaries, ms_summary};

verus! {

/// Number of metric blocks in the Prometheus export.
pub open spec fn export_block_count() -> nat {
    61
}

/// Name of the metric of block `i` of the export.
pub open spec fn block_name(i: nat) -> Seq<char> {
    if i == 0 {
        "http_requests_total"@
    } else if i == 1 {
        "http_requests_by_status_total"@
    } else if i == 2 {
        "http_requests_by_bucket_total"@
    } else if i == 3 {
        "http_requests_by_method_total"@
    } else if i == 4 {
        "auth_success_total"@
    } else if i == 5 {
        "auth_failure_total"@
    } else if i == 6 {
        "auth_bypassed_total"@
    } else if i == 7 {
        "s3_operations_total"@
    } else if i == 8 {
        "s3_errors_total"@
    } else if i == 9 {
        "active_connections"@
    } else if i == 10 {
        "bytes_sent_total"@
    } else if i == 11 {
        "bytes_received_total"@
    } else if i == 12 {
        "memory_usage_bytes"@
    } else if i == 13 {
        "uptime_seconds"@
    } else if i == 14 {
        "config_reload_success_total"@
    } else if i == 15 {
        "config_reload_failure_total"@
    } else if i == 16 {
        "config_generation"@
    } else if i == 17 {
        "concurrency_limit_rejections_total"@
    } else if i == 18 {
        "rate_limit_exceeded_total"@
    } else if i == 19 {
        "s3_retry_attempts_total"@
    } else if i == 20 {
        "s3_retry_success_total"@
    } else if i == 21 {
        "s3_retry_exhausted_total"@
    } else if i == 22 {
        "security_payload_too_large_total"@
    } else if i == 23 {
        "security_headers_too_large_total"@
    } else if i == 24 {
        "security_uri_too_long_total"@
    } else if i == 25 {
        "security_path_traversal_blocked_total"@
    } else if i == 26 {
        "security_sql_injection_blocked_total"@
    } else if i == 27 {
        "http_request_duration_seconds"@
    } else if i == 28 {
        "backend_health"@
    } else if i == 29 {
        "http_requests_by_replica_total"@
    } else if i == 30 {
        "http_errors_by_replica_total"@
    } else if i == 31 {
        "replica_request_duration_seconds"@
    } else if i == 32 {
        "replica_failovers_total"@
    } else if i == 33 {
        "replica_health"@
    } else if i == 34 {
        "yatagarasu_cache_hits_total"@
    } else if i == 35 {
        "yatagarasu_cache_misses_total"@
    } else if i == 36 {
        "yatagarasu_cache_evictions_total"@
    } else if i == 37 {
        "yatagarasu_cache_purges_total"@
    } else if i == 38 {
        "yatagarasu_cache_hits_by_bucket_layer"@
    } else if i == 39 {
        "yatagarasu_cache_misses_by_bucket_layer"@
    } else if i == 40 {
        "yatagarasu_cache_evictions_by_layer"@
    } else if i == 41 {
        "yatagarasu_cache_size_by_layer"@
    } else if i == 42 {
        "yatagarasu_cache_items_by_layer"@
    } else if i == 43 {
        "yatagarasu_cache_sendfile_total"@
    } else if i == 44 {
        "yatagarasu_cache_sendfile_bytes_total"@
    } else if i == 45 {
        "yatagarasu_prewarm_tasks_total"@
    } else if i == 46 {
        "yatagarasu_prewarm_files_total"@
    } else if i == 47 {
        "yatagarasu_prewarm_bytes_total"@
    } else if i == 48 {
        "yatagarasu_prewarm_errors_total"@
    } else if i == 49 {
        "yatagarasu_prewarm_duration_seconds"@
    } else if i == 50 {
        "yatagarasu_image_processing_total"@
    } else if i == 51 {
        "yatagarasu_image_processing_errors_total"@
    } else if i == 52 {
        "yatagarasu_image_bytes_saved_total"@
    } else if i == 53 {
        "yatagarasu_image_bytes_original_total"@
    } else if i == 54 {
        "yatagarasu_image_bytes_processed_total"@
    } else if i == 55 {
        "yatagarasu_image_cache_hits_total"@
    } else if i == 56 {
        "yatagarasu_image_cache_misses_total"@
    } else if i == 57 {
        "yatagarasu_image_processing_duration_us"@
    } else if i == 58 {
        "yatagarasu_image_transformations_total"@
    } else if i == 59 {
        "yatagarasu_image_formats_total"@
    } else {
        "yatagarasu_image_errors_by_type_total"@
    }
}

/// Help text of block `i` of the export.
pub open spec fn block_help(i: nat) -> Seq<char> {
    if i == 0 {
        "Total number of HTTP requests received"@
    } else if i == 1 {
        "HTTP requests by status code"@
    } else if i == 2 {
        "HTTP requests by S3 bucket"@
    } else if i == 3 {
        "HTTP requests by method"@
    } else if i == 4 {
        "Successful authentication attempts"@
    } else if i == 5 {
        "Failed authentication attempts"@
    } else if i == 6 {
        "Authentication bypassed (public buckets)"@
    } else if i == 7 {
        "S3 operations by type"@
    } else if i == 8 {
        "S3 errors by error code"@
    } else if i == 9 {
        "Current number of active connections"@
    } else if i == 10 {
        "Total bytes sent to clients"@
    } else if i == 11 {
        "Total bytes received from clients"@
    } else if i == 12 {
        "Current memory usage (RSS)"@
    } else if i == 13 {
        "Proxy uptime in seconds"@
    } else if i == 14 {
        "Successful configuration reloads"@
    } else if i == 15 {
        "Failed configuration reload attempts"@
    } else if i == 16 {
        "Current configuration generation number"@
    } else if i == 17 {
        "Requests rejected due to concurrency limit (503)"@
    } else if i == 18 {
        "Requests rejected due to rate limit (429) per bucket"@
    } else if i == 19 {
        "Total retry attempts per bucket"@
    } else if i == 20 {
        "Successful retries per bucket (eventually succeeded)"@
    } else if i == 21 {
        "Retries exhausted per bucket (all attempts failed)"@
    } else if i == 22 {
        "Requests rejected due to payload size exceeding limit (413)"@
    } else if i == 23 {
        "Requests rejected due to headers size exceeding limit (431)"@
    } else if i == 24 {
        "Requests rejected due to URI length exceeding limit (414)"@
    } else if i == 25 {
        "Requests blocked due to path traversal attempt (400)"@
    } else if i == 26 {
        "Requests blocked due to SQL injection attempt (400)"@
    } else if i == 27 {
        "Request duration in seconds"@
    } else if i == 28 {
        "Backend health status per bucket (1=healthy, 0=unhealthy)"@
    } else if i == 29 {
        "HTTP requests per replica within bucket"@
    } else if i == 30 {
        "HTTP errors per replica within bucket"@
    } else if i == 31 {
        "Request duration per replica in seconds"@
    } else if i == 32 {
        "Replica failover events (from → to)"@
    } else if i == 33 {
        "Replica health status (1=healthy, 0=unhealthy)"@
    } else if i == 34 {
        "Total cache hits"@
    } else if i == 35 {
        "Total cache misses"@
    } else if i == 36 {
        "Total cache evictions"@
    } else if i == 37 {
        "Total cache purge operations"@
    } else if i == 38 {
        "Cache hits by bucket and layer"@
    } else if i == 39 {
        "Cache misses by bucket and layer"@
    } else if i == 40 {
        "Cache evictions by layer"@
    } else if i == 41 {
        "Cache size in bytes by layer"@
    } else if i == 42 {
        "Cache item count by layer"@
    } else if i == 43 {
        "Total sendfile-eligible cache hits"@
    } else if i == 44 {
        "Total bytes served via sendfile"@
    } else if i == 45 {
        "Total prewarm tasks created"@
    } else if i == 46 {
        "Total files cached by prewarm"@
    } else if i == 47 {
        "Total bytes cached by prewarm"@
    } else if i == 48 {
        "Total prewarm errors"@
    } else if i == 49 {
        "Prewarm task durations"@
    } else if i == 50 {
        "Total image processing operations"@
    } else if i == 51 {
        "Total image processing errors"@
    } else if i == 52 {
        "Total bytes saved by image optimization"@
    } else if i == 53 {
        "Total original image bytes processed"@
    } else if i == 54 {
        "Total processed image bytes"@
    } else if i == 55 {
        "Image variant cache hits"@
    } else if i == 56 {
        "Image variant cache misses"@
    } else if i == 57 {
        "Image processing duration"@
    } else if i == 58 {
        "Image transformations by type"@
    } else if i == 59 {
        "Image output formats"@
    } else {
        "Image errors by type"@
    }
}

/// Metric type of block `i` of the export.
pub open spec fn block_type(i: nat) -> Seq<char> {
    if i == 0 {
        "counter"@
    } else if i == 1 {
        "counter"@
    } else if i == 2 {
        "counter"@
    } else if i == 3 {
        "counter"@
    } else if i == 4 {
        "counter"@
    } else if i == 5 {
        "counter"@
    } else if i == 6 {
        "counter"@
    } else if i == 7 {
        "counter"@
    } else if i == 8 {
        "counter"@
    } else if i == 9 {
        "gauge"@
    } else if i == 10 {
        "counter"@
    } else if i == 11 {
        "counter"@
    } else if i == 12 {
        "gauge"@
    } else if i == 13 {
        "gauge"@
    } else if i == 14 {
        "counter"@
    } else if i == 15 {
        "counter"@
    } else if i == 16 {
        "gauge"@
    } else if i == 17 {
        "counter"@
    } else if i == 18 {
        "counter"@
    } else if i == 19 {
        "counter"@
    } else if i == 20 {
        "counter"@
    } else if i == 21 {
        "counter"@
    } else if i == 22 {
        "counter"@
    } else if i == 23 {
        "counter"@
    } else if i == 24 {
        "counter"@
    } else if i == 25 {
        "counter"@
    } else if i == 26 {
        "counter"@
    } else if i == 27 {
        "summary"@
    } else if i == 28 {
        "gauge"@
    } else if i == 29 {
        "counter"@
    } else if i == 30 {
        "counter"@
    } else if i == 31 {
        "summary"@
    } else if i == 32 {
        "counter"@
    } else if i == 33 {
        "gauge"@
    } else if i == 34 {
        "counter"@
    } else if i == 35 {
        "counter"@
    } else if i == 36 {
        "counter"@
    } else if i == 37 {
        "counter"@
    } else if i == 38 {
        "counter"@
    } else if i == 39 {
        "counter"@
    } else if i == 40 {
        "counter"@
    } else if i == 41 {
        "gauge"@
    } else if i == 42 {
        "gauge"@
    } else if i == 43 {
        "counter"@
    } else if i == 44 {
        "counter"@
    } else if i == 45 {
        "counter"@
    } else if i == 46 {
        "counter"@
    } else if i == 47 {
        "counter"@
    } else if i == 48 {
        "counter"@
    } else if i == 49 {
        "summary"@
    } else if i == 50 {
        "counter"@
    } else if i == 51 {
        "counter"@
    } else if i == 52 {
        "counter"@
    } else if i == 53 {
        "counter"@
    } else if i == 54 {
        "counter"@
    } else if i == 55 {
        "counter"@
    } else if i == 56 {
        "counter"@
    } else if i == 57 {
        "summary"@
    } else if i == 58 {
        "counter"@
    } else if i == 59 {
        "counter"@
    } else {
        "counter"@
    }
}

/// Sample lines of block `i` of the export.
pub open spec fn block_samples(m: MetricsView, i: nat) -> Seq<char> {
    if i == 0 {
        scalar_line("http_requests_total"@, m.request_count)
    } else if i == 1 {
        labeled_lines("http_requests_by_status_total"@, "status"@, m.status_counts)
    } else if i == 2 {
        labeled_lines("http_requests_by_bucket_total"@, "bucket"@, m.bucket_counts)
    } else if i == 3 {
        labeled_lines("http_requests_by_method_total"@, "method"@, m.method_counts)
    } else if i == 4 {
        scalar_line("auth_success_total"@, m.auth_success)
    } else if i == 5 {
        scalar_line("auth_failure_total"@, m.auth_failure)
    } else if i == 6 {
        scalar_line("auth_bypassed_total"@, m.auth_bypassed)
    } else if i == 7 {
        labeled_lines("s3_operations_total"@, "operation"@, m.s3_operations)
    } else if i == 8 {
        labeled_lines("s3_errors_total"@, "error_code"@, m.s3_errors)
    } else if i == 9 {
        scalar_line("active_connections"@, m.active_connections)
    } else if i == 10 {
        scalar_line("bytes_sent_total"@, m.bytes_sent)
    } else if i == 11 {
        scalar_line("bytes_received_total"@, m.bytes_received)
    } else if i == 12 {
        scalar_line("memory_usage_bytes"@, m.memory_usage)
    } else if i == 13 {
        scalar_line("uptime_seconds"@, m.uptime_seconds)
    } else if i == 14 {
        scalar_line("config_reload_success_total"@, m.reload_success)
    } else if i == 15 {
        scalar_line("config_reload_failure_total"@, m.reload_failure)
    } else if i == 16 {
        scalar_line("config_generation"@, m.config_generation)
    } else if i == 17 {
        scalar_line("concurrency_limit_rejections_total"@, m.concurrency_limit_rejections)
    } else if i == 18 {
        labeled_lines("rate_limit_exceeded_total"@, "bucket"@, m.rate_limit_exceeded)
    } else if i == 19 {
        labeled_lines("s3_retry_attempts_total"@, "bucket"@, m.s3_retry_attempts)
    } else if i == 20 {
        labeled_lines("s3_retry_success_total"@, "bucket"@, m.s3_retry_success)
    } else if i == 21 {
        labeled_lines("s3_retry_exhausted_total"@, "bucket"@, m.s3_retry_exhausted)
    } else if i == 22 {
        scalar_line("security_payload_too_large_total"@, m.security_payload_too_large)
    } else if i == 23 {
        scalar_line("security_headers_too_large_total"@, m.security_headers_too_large)
    } else if i == 24 {
        scalar_line("security_uri_too_long_total"@, m.security_uri_too_long)
    } else if i == 25 {
        scalar_line("security_path_traversal_blocked_total"@, m.security_path_traversal_blocked)
    } else if i == 26 {
        scalar_line("security_sql_injection_blocked_total"@, m.security_sql_injection_blocked)
    } else if i == 27 {
        duration_summary(m.durations)
    } else if i == 28 {
        flag_lines("backend_health"@, "bucket"@, m.backend_health)
    } else if i == 29 {
        pair_lines("http_requests_by_replica_total"@, "bucket"@, "replica"@, m.replica_request_counts)
    } else if i == 30 {
        pair_lines("http_errors_by_replica_total"@, "bucket"@, "replica"@, m.replica_error_counts)
    } else if i == 31 {
        replica_summaries(m.replica_latencies)
    } else if i == 32 {
        failover_lines(m.replica_failovers)
    } else if i == 33 {
        pair_flag_lines("replica_health"@, "bucket"@, "replica"@, m.replica_health)
    } else if i == 34 {
        scalar_line("yatagarasu_cache_hits_total"@, m.cache_hits)
    } else if i == 35 {
        scalar_line("yatagarasu_cache_misses_total"@, m.cache_misses)
    } else if i == 36 {
        scalar_line("yatagarasu_cache_evictions_total"@, m.cache_evictions)
    } else if i == 37 {
        scalar_line("yatagarasu_cache_purges_total"@, m.cache_purges)
    } else if i == 38 {
        pair_lines("yatagarasu_cache_hits_by_bucket_layer"@, "bucket"@, "layer"@, m.cache_hits_by_bucket_layer)
    } else if i == 39 {
        pair_lines("yatagarasu_cache_misses_by_bucket_layer"@, "bucket"@, "layer"@, m.cache_misses_by_bucket_layer)
    } else if i == 40 {
        labeled_lines("yatagarasu_cache_evictions_by_layer"@, "layer"@, m.cache_evictions_by_layer)
    } else if i == 41 {
        labeled_lines("yatagarasu_cache_size_by_layer"@, "layer"@, m.cache_size_by_layer)
    } else if i == 42 {
        labeled_lines("yatagarasu_cache_items_by_layer"@, "layer"@, m.cache_items_by_layer)
    } else if i == 43 {
        scalar_line("yatagarasu_cache_sendfile_total"@, m.cache_sendfile_count)
    } else if i == 44 {
        scalar_line("yatagarasu_cache_sendfile_bytes_total"@, m.cache_sendfile_bytes)
    } else if i == 45 {
        scalar_line("yatagarasu_prewarm_tasks_total"@, m.prewarm_tasks_total)
    } else if i == 46 {
        scalar_line("yatagarasu_prewarm_files_total"@, m.prewarm_files_total)
    } else if i == 47 {
        scalar_line("yatagarasu_prewarm_bytes_total"@, m.prewarm_bytes_total)
    } else if i == 48 {
        scalar_line("yatagarasu_prewarm_errors_total"@, m.prewarm_errors_total)
    } else if i == 49 {
        ms_summary("yatagarasu_prewarm_duration_seconds"@, m.prewarm_duration_seconds)
    } else if i == 50 {
        scalar_line("yatagarasu_image_processing_total"@, m.image_processing_total)
    } else if i == 51 {
        scalar_line("yatagarasu_image_processing_errors_total"@, m.image_processing_errors)
    } else if i == 52 {
        scalar_line("yatagarasu_image_bytes_saved_total"@, m.image_bytes_saved)
    } else if i == 53 {
        scalar_line("yatagarasu_image_bytes_original_total"@, m.image_bytes_original)
    } else if i == 54 {
        scalar_line("yatagarasu_image_bytes_processed_total"@, m.image_bytes_processed)
    } else if i == 55 {
        scalar_line("yatagarasu_image_cache_hits_total"@, m.image_cache_hits)
    } else if i == 56 {
        scalar_line("yatagarasu_image_cache_misses_total"@, m.image_cache_misses)
    } else if i == 57 {
        ms_summary("yatagarasu_image_processing_duration_us"@, m.image_processing_durations)
    } else if i == 58 {
        labeled_lines("yatagarasu_image_transformations_total"@, "type"@, m.image_transformations)
    } else if i == 59 {
        labeled_lines("yatagarasu_image_formats_total"@, "format"@, m.image_formats)
    } else {
        labeled_lines("yatagarasu_image_errors_by_type_total"@, "type"@, m.image_errors_by_type)
    }
}

/// The first `n` blocks of the export: each is its `# HELP` and `# TYPE`
/// lines followed by its samples.
pub open spec fn export_blocks(m: MetricsView, n: nat) -> Seq<char>
    decreases n,
{
    if n == 0 {
        Seq::<char>::empty()
    } else {
        export_blocks(m, (n - 1) as nat) + header(
            n == 1,
            block_name((n - 1) as nat),
            block_help((n - 1) as nat),
            block_type((n - 1) as nat),
        ) + block_samples(m, (n - 1) as nat)
    }
}

/// A few characters of a metric name, enough to tell the exported
/// names apart: its length and its characters at positions 0, 9 and 20
/// (a space past its end).
pub open spec fn name_fingerprint(s: Seq<char>) -> (nat, char, char, char) {
    (s.len(), s[0], s[9], if 20 < s.len() { s[20] } else { ' ' })
}

/// The block whose metric name has this fingerprint (61 when none has).
pub open spec fn block_of_fingerprint(f: (nat, char, char, char)) -> nat {
    if f == (19nat, 'h', 'e', ' ') {
        0
    } else if f == (29nat, 'h', 'e', 't') {
        1
    } else if f == (29nat, 'h', 'e', 'k') {
        2
    } else if f == (29nat, 'h', 'e', 'h') {
        3
    } else if f == (18nat, 'a', 'e', ' ') {
        4
    } else if f == (18nat, 'a', 'u', ' ') {
        5
    } else if f == (19nat, 'a', 's', ' ') {
        6
    } else if f == (19nat, 's', 'i', ' ') {
        7
    } else if f == (15nat, 's', '_', ' ') {
        8
    } else if f == (18nat, 'a', 'n', ' ') {
        9
    } else if f == (16nat, 'b', 't', ' ') {
        10
    } else if f == (20nat, 'b', 'e', ' ') {
        11
    } else if f == (18nat, 'm', 'a', ' ') {
        12
    } else if f == (14nat, 'u', 'c', ' ') {
        13
    } else if f == (27nat, 'c', 'l', 's') {
        14
    } else if f == (27nat, 'c', 'l', 'e') {
        15
    } else if f == (17nat, 'c', 'n', ' ') {
        16
    } else if f == (34nat, 'c', 'c', 'j') {
        17
    } else if f == (25nat, 'r', 't', 't') {
        18
    } else if f == (23nat, 's', 'a', 't') {
        19
    } else if f == (22nat, 's', 's', 'a') {
        20
    } else if f == (24nat, 's', 'e', 'o') {
        21
    } else if f == (32nat, 's', 'p', '_') {
        22
    } else if f == (32nat, 's', 'h', '_') {
        23
    } else if f == (27nat, 's', 'u', 'g') {
        24
    } else if f == (37nat, 's', 'p', 's') {
        25
    } else if f == (36nat, 's', 's', 'o') {
        26
    } else if f == (29nat, 'h', 'e', 'n') {
        27
    } else if f == (14nat, 'b', 'e', ' ') {
        28
    } else if f == (30nat, 'h', 'e', 'l') {
        29
    } else if f == (28nat, 'h', 'r', 'c') {
        30
    } else if f == (32nat, 'r', 'e', 't') {
        31
    } else if f == (23nat, 'r', 'a', 't') {
        32
    } else if f == (14nat, 'r', 'e', ' ') {
        33
    } else if f == (27nat, 'y', 'u', 's') {
        34
    } else if f == (29nat, 'y', 'u', 's') {
        35
    } else if f == (32nat, 'y', 'u', 'c') {
        36
    } else if f == (29nat, 'y', 'u', 'g') {
        37
    } else if f == (37nat, 'y', 'u', 's') {
        38
    } else if f == (39nat, 'y', 'u', 's') {
        39
    } else if f == (35nat, 'y', 'u', 'c') {
        40
    } else if f == (30nat, 'y', 'u', 'e') {
        41
    } else if f == (31nat, 'y', 'u', 'm') {
        42
    } else if f == (31nat, 'y', 'u', 'd') {
        43
    } else if f == (37nat, 'y', 'u', 'd') {
        44
    } else if f == (30nat, 'y', 'u', 'a') {
        45
    } else if f == (30nat, 'y', 'u', 'i') {
        46
    } else if f == (30nat, 'y', 'u', 'y') {
        47
    } else if f == (31nat, 'y', 'u', 'r') {
        48
    } else if f == (35nat, 'y', 'u', 'u') {
        49
    } else if f == (33nat, 'y', 'u', 'c') {
        50
    } else if f == (40nat, 'y', 'u', 'c') {
        51
    } else if f == (34nat, 'y', 'u', 'e') {
        52
    } else if f == (37nat, 'y', 'u', 'e') {
        53
    } else if f == (38nat, 'y', 'u', 'e') {
        54
    } else if f == (33nat, 'y', 'u', 'h') {
        55
    } else if f == (35nat, 'y', 'u', 'h') {
        56
    } else if f == (39nat, 'y', 'u', 'c') {
        57
    } else if f == (38nat, 'y', 'u', 'n') {
        58
    } else if f == (30nat, 'y', 'u', 'm') {
        59
    } else if f == (37nat, 'y', 'u', 'o') {
        60
    } else {
        61
    }
}

/// Each block's metric name leads back to that block.
proof fn lemma_block_name_fingerprint(i: nat)
    requires
        i < export_block_count(),
    ensures
        block_of_fingerprint(name_fingerprint(block_name(i))) == i,
{
    reveal_strlit("http_requests_total");
    reveal_strlit("http_requests_by_status_total");
    reveal_strlit("http_requests_by_bucket_total");
    reveal_strlit("http_requests_by_method_total");
    reveal_strlit("auth_success_total");
    reveal_strlit("auth_failure_total");
    reveal_strlit("auth_bypassed_total");
    reveal_strlit("s3_operations_total");
    reveal_strlit("s3_errors_total");
    reveal_strlit("active_connections");
    reveal_strlit("bytes_sent_total");
    reveal_strlit("bytes_received_total");
    reveal_strlit("memory_usage_bytes");
    reveal_strlit("uptime_seconds");
    reveal_strlit("config_reload_success_total");
    reveal_strlit("config_reload_failure_total");
    reveal_strlit("config_generation");
    reveal_strlit("concurrency_limit_rejections_total");
    reveal_strlit("rate_limit_exceeded_total");
    reveal_strlit("s3_retry_attempts_total");
    reveal_strlit("s3_retry_success_total");
    reveal_strlit("s3_retry_exhausted_total");
    reveal_strlit("security_payload_too_large_total");
    reveal_strlit("security_headers_too_large_total");
    reveal_strlit("security_uri_too_long_total");
    reveal_strlit("security_path_traversal_blocked_total");
    reveal_strlit("security_sql_injection_blocked_total");
    reveal_strlit("http_request_duration_seconds");
    reveal_strlit("backend_health");
    reveal_strlit("http_requests_by_replica_total");
    reveal_strlit("http_errors_by_replica_total");
    reveal_strlit("replica_request_duration_seconds");
    reveal_strlit("replica_failovers_total");
    reveal_strlit("replica_health");
    reveal_strlit("yatagarasu_cache_hits_total");
    reveal_strlit("yatagarasu_cache_misses_total");
    reveal_strlit("yatagarasu_cache_evictions_total");
    reveal_strlit("yatagarasu_cache_purges_total");
    reveal_strlit("yatagarasu_cache_hits_by_bucket_layer");
    reveal_strlit("yatagarasu_cache_misses_by_bucket_layer");
    reveal_strlit("yatagarasu_cache_evictions_by_layer");
    reveal_strlit("yatagarasu_cache_size_by_layer");
    reveal_strlit("yatagarasu_cache_items_by_layer");
    reveal_strlit("yatagarasu_cache_sendfile_total");
    reveal_strlit("yatagarasu_cache_sendfile_bytes_total");
    reveal_strlit("yatagarasu_prewarm_tasks_total");
    reveal_strlit("yatagarasu_prewarm_files_total");
    reveal_strlit("yatagarasu_prewarm_bytes_total");
    reveal_strlit("yatagarasu_prewarm_errors_total");
    reveal_strlit("yatagarasu_prewarm_duration_seconds");
    reveal_strlit("yatagarasu_image_processing_total");
    reveal_strlit("yatagarasu_image_processing_errors_total");
    reveal_strlit("yatagarasu_image_bytes_saved_total");
    reveal_strlit("yatagarasu_image_bytes_original_total");
    reveal_strlit("yatagarasu_image_bytes_processed_total");
    reveal_strlit("yatagarasu_image_cache_hits_total");
    reveal_strlit("yatagarasu_image_cache_misses_total");
    reveal_strlit("yatagarasu_image_processing_duration_us");
    reveal_strlit("yatagarasu_image_transformations_total");
    reveal_strlit("yatagarasu_image_formats_total");
    reveal_strlit("yatagarasu_image_errors_by_type_total");
}

/// Law: the Prometheus export is its metric blocks in order, each opened
/// by exactly one `# HELP` line and one `# TYPE` line for its metric, and
/// no two blocks are for the same metric: every exported metric has one
/// HELP line and one TYPE line.
pub proof fn law_one_help_and_type_per_metric(m: MetricsView, i: nat, j: nat)
    requires
        i < j < export_block_count(),
    ensures
        prometheus_text(m) == export_blocks(m, export_block_count()),
        block_name(i) != block_name(j),
{
    lemma_block_name_fingerprint(i);
    lemma_block_name_fingerprint(j);
}

} // verus!
