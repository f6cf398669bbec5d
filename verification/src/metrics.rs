//! Prometheus-style metrics of the proxy: counters, gauges, labelled
//! counters and latency samples.
//!
//! Counters wrap at `u64::MAX`, as atomic `fetch_add` does. Maps keep one
//! entry per label in first-insertion order; compound labels are written
//! `bucket:replica`, `bucket:layer` and `bucket:from:to`. Status codes are
//! keyed by their decimal text.

use vstd::prelude::*;
use crate::labels::{LabelMap, label_count, label_increment, label_insert, label_value,
    label_index, labels_unique, wrap_inc, lemma_label_insert, lemma_label_index};
use crate::exposition::{export_blocks, export_block_count, block_name, block_help, block_type, block_samples};
use crate::text::{decimal, u64_to_decimal, to_string, push_str, opt_view, lemma_decimal_injective};
use crate::prometheus::{header, emit_header, emit_scalar,
    emit_labeled, emit_flags, emit_pairs, emit_pair_flags, emit_failovers, emit_duration_summary,
    emit_replica_summaries, emit_ms_summary};

verus! {

/// Label `a:b`.
pub open spec fn label2(a: Seq<char>, b: Seq<char>) -> Seq<char> {
    a + ":"@ + b
}

/// Label `a:b:c`.
pub open spec fn label3(a: Seq<char>, b: Seq<char>, c: Seq<char>) -> Seq<char> {
    a + ":"@ + b + ":"@ + c
}

/// Builds the label `a:b`.
fn make_label2(a: &str, b: &str) -> (r: String)
    ensures
        r@ == label2(a@, b@),
{
    let mut k = to_string(a);
    push_str(&mut k, ":");
    push_str(&mut k, b);
    k
}

/// Builds the label `a:b:c`.
fn make_label3(a: &str, b: &str, c: &str) -> (r: String)
    ensures
        r@ == label3(a@, b@, c@),
{
    let mut k = make_label2(a, b);
    push_str(&mut k, ":");
    push_str(&mut k, c);
    k
}

/// Abstract state of the metrics: every counter, gauge, labelled
/// counter and sample list.
pub ghost struct MetricsView {
    /// Total requests received.
    pub request_count: u64,
    /// Requests per status code (keyed by the decimal code).
    pub status_counts: Seq<(Seq<char>, u64)>,
    /// Requests per bucket.
    pub bucket_counts: Seq<(Seq<char>, u64)>,
    /// Requests per HTTP method.
    pub method_counts: Seq<(Seq<char>, u64)>,
    /// Request durations in microseconds.
    pub durations: Seq<u64>,
    /// S3 backend latencies in microseconds.
    pub s3_latencies: Seq<u64>,
    /// Latencies per bucket in microseconds.
    pub bucket_latencies: Seq<(Seq<char>, Vec<u64>)>,
    /// Successful authentications.
    pub auth_success: u64,
    /// Failed authentications.
    pub auth_failure: u64,
    /// Requests to public buckets.
    pub auth_bypassed: u64,
    /// Authentication errors per type.
    pub auth_errors: Seq<(Seq<char>, u64)>,
    /// S3 operations per type.
    pub s3_operations: Seq<(Seq<char>, u64)>,
    /// Currently open client connections.
    pub active_connections: u64,
    /// Bytes sent to clients.
    pub bytes_sent: u64,
    /// Bytes received from clients.
    pub bytes_received: u64,
    /// Resident memory in bytes.
    pub memory_usage: u64,
    /// Seconds since start.
    pub uptime_seconds: u64,
    /// S3 errors per error code.
    pub s3_errors: Seq<(Seq<char>, u64)>,
    /// Successful configuration reloads.
    pub reload_success: u64,
    /// Failed configuration reloads.
    pub reload_failure: u64,
    /// Current configuration generation.
    pub config_generation: u64,
    /// Requests rejected at the concurrency limit.
    pub concurrency_limit_rejections: u64,
    /// Rate-limited requests per bucket.
    pub rate_limit_exceeded: Seq<(Seq<char>, u64)>,
    /// Retry attempts per bucket.
    pub s3_retry_attempts: Seq<(Seq<char>, u64)>,
    /// Requests that succeeded after a retry, per bucket.
    pub s3_retry_success: Seq<(Seq<char>, u64)>,
    /// Requests whose retries all failed, per bucket.
    pub s3_retry_exhausted: Seq<(Seq<char>, u64)>,
    /// Requests rejected for body size.
    pub security_payload_too_large: u64,
    /// Requests rejected for header size.
    pub security_headers_too_large: u64,
    /// Requests rejected for URI length.
    pub security_uri_too_long: u64,
    /// Requests blocked for path traversal.
    pub security_path_traversal_blocked: u64,
    /// Requests blocked for SQL injection.
    pub security_sql_injection_blocked: u64,
    /// Backend health per bucket.
    pub backend_health: Seq<(Seq<char>, bool)>,
    /// Requests per `bucket:replica`.
    pub replica_request_counts: Seq<(Seq<char>, u64)>,
    /// Errors per `bucket:replica`.
    pub replica_error_counts: Seq<(Seq<char>, u64)>,
    /// Latencies per `bucket:replica` in microseconds.
    pub replica_latencies: Seq<(Seq<char>, Vec<u64>)>,
    /// Failovers per `bucket:from:to`.
    pub replica_failovers: Seq<(Seq<char>, u64)>,
    /// Health per `bucket:replica`.
    pub replica_health: Seq<(Seq<char>, bool)>,
    /// Replica currently serving each bucket.
    pub active_replica: Seq<(Seq<char>, String)>,
    /// Cache hits.
    pub cache_hits: u64,
    /// Cache misses.
    pub cache_misses: u64,
    /// Cache evictions.
    pub cache_evictions: u64,
    /// Cache purge operations.
    pub cache_purges: u64,
    /// Current cache size in bytes.
    pub cache_size_bytes: u64,
    /// Current number of cached items.
    pub cache_items: u64,
    /// Cache get durations in microseconds.
    pub cache_get_durations: Seq<u64>,
    /// Cache set durations in microseconds.
    pub cache_set_durations: Seq<u64>,
    /// Cache hits per `bucket:layer`.
    pub cache_hits_by_bucket_layer: Seq<(Seq<char>, u64)>,
    /// Cache misses per `bucket:layer`.
    pub cache_misses_by_bucket_layer: Seq<(Seq<char>, u64)>,
    /// Cache evictions per layer.
    pub cache_evictions_by_layer: Seq<(Seq<char>, u64)>,
    /// Cache size in bytes per layer.
    pub cache_size_by_layer: Seq<(Seq<char>, u64)>,
    /// Cached items per layer.
    pub cache_items_by_layer: Seq<(Seq<char>, u64)>,
    /// Responses eligible for sendfile.
    pub cache_sendfile_count: u64,
    /// Bytes served via sendfile.
    pub cache_sendfile_bytes: u64,
    /// OPA decision cache hits.
    pub opa_cache_hits: u64,
    /// OPA decision cache misses.
    pub opa_cache_misses: u64,
    /// OPA evaluation durations in microseconds.
    pub opa_evaluation_durations: Seq<u64>,
    /// Prewarm tasks created.
    pub prewarm_tasks_total: u64,
    /// Files cached by prewarm.
    pub prewarm_files_total: u64,
    /// Bytes cached by prewarm.
    pub prewarm_bytes_total: u64,
    /// Prewarm errors.
    pub prewarm_errors_total: u64,
    /// Prewarm task durations in microseconds.
    pub prewarm_duration_seconds: Seq<u64>,
    /// Image processing operations.
    pub image_processing_total: u64,
    /// Image processing errors.
    pub image_processing_errors: u64,
    /// Image processing durations in microseconds.
    pub image_processing_durations: Seq<u64>,
    /// Bytes saved by image optimization.
    pub image_bytes_saved: u64,
    /// Original image bytes processed.
    pub image_bytes_original: u64,
    /// Processed image bytes.
    pub image_bytes_processed: u64,
    /// Image variant cache hits.
    pub image_cache_hits: u64,
    /// Image variant cache misses.
    pub image_cache_misses: u64,
    /// Image transformations per type.
    pub image_transformations: Seq<(Seq<char>, u64)>,
    /// Image output formats.
    pub image_formats: Seq<(Seq<char>, u64)>,
    /// Image errors per type.
    pub image_errors_by_type: Seq<(Seq<char>, u64)>,
}

/// Counters, gauges and samples of the proxy, exported in Prometheus
/// text format.
pub struct Metrics {
    request_count: u64,
    status_counts: LabelMap<u64>,
    bucket_counts: LabelMap<u64>,
    method_counts: LabelMap<u64>,
    durations: Vec<u64>,
    s3_latencies: Vec<u64>,
    bucket_latencies: LabelMap<Vec<u64>>,
    auth_success: u64,
    auth_failure: u64,
    auth_bypassed: u64,
    auth_errors: LabelMap<u64>,
    s3_operations: LabelMap<u64>,
    active_connections: u64,
    bytes_sent: u64,
    bytes_received: u64,
    memory_usage: u64,
    uptime_seconds: u64,
    s3_errors: LabelMap<u64>,
    reload_success: u64,
    reload_failure: u64,
    config_generation: u64,
    concurrency_limit_rejections: u64,
    rate_limit_exceeded: LabelMap<u64>,
    s3_retry_attempts: LabelMap<u64>,
    s3_retry_success: LabelMap<u64>,
    s3_retry_exhausted: LabelMap<u64>,
    security_payload_too_large: u64,
    security_headers_too_large: u64,
    security_uri_too_long: u64,
    security_path_traversal_blocked: u64,
    security_sql_injection_blocked: u64,
    backend_health: LabelMap<bool>,
    replica_request_counts: LabelMap<u64>,
    replica_error_counts: LabelMap<u64>,
    replica_latencies: LabelMap<Vec<u64>>,
    replica_failovers: LabelMap<u64>,
    replica_health: LabelMap<bool>,
    active_replica: LabelMap<String>,
    cache_hits: u64,
    cache_misses: u64,
    cache_evictions: u64,
    cache_purges: u64,
    cache_size_bytes: u64,
    cache_items: u64,
    cache_get_durations: Vec<u64>,
    cache_set_durations: Vec<u64>,
    cache_hits_by_bucket_layer: LabelMap<u64>,
    cache_misses_by_bucket_layer: LabelMap<u64>,
    cache_evictions_by_layer: LabelMap<u64>,
    cache_size_by_layer: LabelMap<u64>,
    cache_items_by_layer: LabelMap<u64>,
    cache_sendfile_count: u64,
    cache_sendfile_bytes: u64,
    opa_cache_hits: u64,
    opa_cache_misses: u64,
    opa_evaluation_durations: Vec<u64>,
    prewarm_tasks_total: u64,
    prewarm_files_total: u64,
    prewarm_bytes_total: u64,
    prewarm_errors_total: u64,
    prewarm_duration_seconds: Vec<u64>,
    image_processing_total: u64,
    image_processing_errors: u64,
    image_processing_durations: Vec<u64>,
    image_bytes_saved: u64,
    image_bytes_original: u64,
    image_bytes_processed: u64,
    image_cache_hits: u64,
    image_cache_misses: u64,
    image_transformations: LabelMap<u64>,
    image_formats: LabelMap<u64>,
    image_errors_by_type: LabelMap<u64>,
}

impl View for Metrics {
    type V = MetricsView;

    closed spec fn view(&self) -> MetricsView {
        MetricsView {
            request_count: self.request_count,
            status_counts: self.status_counts@,
            bucket_counts: self.bucket_counts@,
            method_counts: self.method_counts@,
            durations: self.durations@,
            s3_latencies: self.s3_latencies@,
            bucket_latencies: self.bucket_latencies@,
            auth_success: self.auth_success,
            auth_failure: self.auth_failure,
            auth_bypassed: self.auth_bypassed,
            auth_errors: self.auth_errors@,
            s3_operations: self.s3_operations@,
            active_connections: self.active_connections,
            bytes_sent: self.bytes_sent,
            bytes_received: self.bytes_received,
            memory_usage: self.memory_usage,
            uptime_seconds: self.uptime_seconds,
            s3_errors: self.s3_errors@,
            reload_success: self.reload_success,
            reload_failure: self.reload_failure,
            config_generation: self.config_generation,
            concurrency_limit_rejections: self.concurrency_limit_rejections,
            rate_limit_exceeded: self.rate_limit_exceeded@,
            s3_retry_attempts: self.s3_retry_attempts@,
            s3_retry_success: self.s3_retry_success@,
            s3_retry_exhausted: self.s3_retry_exhausted@,
            security_payload_too_large: self.security_payload_too_large,
            security_headers_too_large: self.security_headers_too_large,
            security_uri_too_long: self.security_uri_too_long,
            security_path_traversal_blocked: self.security_path_traversal_blocked,
            security_sql_injection_blocked: self.security_sql_injection_blocked,
            backend_health: self.backend_health@,
            replica_request_counts: self.replica_request_counts@,
            replica_error_counts: self.replica_error_counts@,
            replica_latencies: self.replica_latencies@,
            replica_failovers: self.replica_failovers@,
            replica_health: self.replica_health@,
            active_replica: self.active_replica@,
            cache_hits: self.cache_hits,
            cache_misses: self.cache_misses,
            cache_evictions: self.cache_evictions,
            cache_purges: self.cache_purges,
            cache_size_bytes: self.cache_size_bytes,
            cache_items: self.cache_items,
            cache_get_durations: self.cache_get_durations@,
            cache_set_durations: self.cache_set_durations@,
            cache_hits_by_bucket_layer: self.cache_hits_by_bucket_layer@,
            cache_misses_by_bucket_layer: self.cache_misses_by_bucket_layer@,
            cache_evictions_by_layer: self.cache_evictions_by_layer@,
            cache_size_by_layer: self.cache_size_by_layer@,
            cache_items_by_layer: self.cache_items_by_layer@,
            cache_sendfile_count: self.cache_sendfile_count,
            cache_sendfile_bytes: self.cache_sendfile_bytes,
            opa_cache_hits: self.opa_cache_hits,
            opa_cache_misses: self.opa_cache_misses,
            opa_evaluation_durations: self.opa_evaluation_durations@,
            prewarm_tasks_total: self.prewarm_tasks_total,
            prewarm_files_total: self.prewarm_files_total,
            prewarm_bytes_total: self.prewarm_bytes_total,
            prewarm_errors_total: self.prewarm_errors_total,
            prewarm_duration_seconds: self.prewarm_duration_seconds@,
            image_processing_total: self.image_processing_total,
            image_processing_errors: self.image_processing_errors,
            image_processing_durations: self.image_processing_durations@,
            image_bytes_saved: self.image_bytes_saved,
            image_bytes_original: self.image_bytes_original,
            image_bytes_processed: self.image_bytes_processed,
            image_cache_hits: self.image_cache_hits,
            image_cache_misses: self.image_cache_misses,
            image_transformations: self.image_transformations@,
            image_formats: self.image_formats@,
            image_errors_by_type: self.image_errors_by_type@,
        }
    }
}

/// The state of fresh metrics: every counter and gauge at 0, every map
/// and sample list empty.
pub open spec fn metrics_empty() -> MetricsView {
    MetricsView {
        request_count: 0,
        status_counts: Seq::<(Seq<char>, u64)>::empty(),
        bucket_counts: Seq::<(Seq<char>, u64)>::empty(),
        method_counts: Seq::<(Seq<char>, u64)>::empty(),
        durations: Seq::<u64>::empty(),
        s3_latencies: Seq::<u64>::empty(),
        bucket_latencies: Seq::<(Seq<char>, Vec<u64>)>::empty(),
        auth_success: 0,
        auth_failure: 0,
        auth_bypassed: 0,
        auth_errors: Seq::<(Seq<char>, u64)>::empty(),
        s3_operations: Seq::<(Seq<char>, u64)>::empty(),
        active_connections: 0,
        bytes_sent: 0,
        bytes_received: 0,
        memory_usage: 0,
        uptime_seconds: 0,
        s3_errors: Seq::<(Seq<char>, u64)>::empty(),
        reload_success: 0,
        reload_failure: 0,
        config_generation: 0,
        concurrency_limit_rejections: 0,
        rate_limit_exceeded: Seq::<(Seq<char>, u64)>::empty(),
        s3_retry_attempts: Seq::<(Seq<char>, u64)>::empty(),
        s3_retry_success: Seq::<(Seq<char>, u64)>::empty(),
        s3_retry_exhausted: Seq::<(Seq<char>, u64)>::empty(),
        security_payload_too_large: 0,
        security_headers_too_large: 0,
        security_uri_too_long: 0,
        security_path_traversal_blocked: 0,
        security_sql_injection_blocked: 0,
        backend_health: Seq::<(Seq<char>, bool)>::empty(),
        replica_request_counts: Seq::<(Seq<char>, u64)>::empty(),
        replica_error_counts: Seq::<(Seq<char>, u64)>::empty(),
        replica_latencies: Seq::<(Seq<char>, Vec<u64>)>::empty(),
        replica_failovers: Seq::<(Seq<char>, u64)>::empty(),
        replica_health: Seq::<(Seq<char>, bool)>::empty(),
        active_replica: Seq::<(Seq<char>, String)>::empty(),
        cache_hits: 0,
        cache_misses: 0,
        cache_evictions: 0,
        cache_purges: 0,
        cache_size_bytes: 0,
        cache_items: 0,
        cache_get_durations: Seq::<u64>::empty(),
        cache_set_durations: Seq::<u64>::empty(),
        cache_hits_by_bucket_layer: Seq::<(Seq<char>, u64)>::empty(),
        cache_misses_by_bucket_layer: Seq::<(Seq<char>, u64)>::empty(),
        cache_evictions_by_layer: Seq::<(Seq<char>, u64)>::empty(),
        cache_size_by_layer: Seq::<(Seq<char>, u64)>::empty(),
        cache_items_by_layer: Seq::<(Seq<char>, u64)>::empty(),
        cache_sendfile_count: 0,
        cache_sendfile_bytes: 0,
        opa_cache_hits: 0,
        opa_cache_misses: 0,
        opa_evaluation_durations: Seq::<u64>::empty(),
        prewarm_tasks_total: 0,
        prewarm_files_total: 0,
        prewarm_bytes_total: 0,
        prewarm_errors_total: 0,
        prewarm_duration_seconds: Seq::<u64>::empty(),
        image_processing_total: 0,
        image_processing_errors: 0,
        image_processing_durations: Seq::<u64>::empty(),
        image_bytes_saved: 0,
        image_bytes_original: 0,
        image_bytes_processed: 0,
        image_cache_hits: 0,
        image_cache_misses: 0,
        image_transformations: Seq::<(Seq<char>, u64)>::empty(),
        image_formats: Seq::<(Seq<char>, u64)>::empty(),
        image_errors_by_type: Seq::<(Seq<char>, u64)>::empty(),
    }
}

impl Metrics {
    /// Create a new Metrics instance with everything at zero.
    pub fn new() -> (r: Self)
        ensures
            r@ == metrics_empty(),
    {
        let r = Metrics {
                request_count: 0,
                status_counts: LabelMap::new(),
                bucket_counts: LabelMap::new(),
                method_counts: LabelMap::new(),
                durations: Vec::new(),
                s3_latencies: Vec::new(),
                bucket_latencies: LabelMap::new(),
                auth_success: 0,
                auth_failure: 0,
                auth_bypassed: 0,
                auth_errors: LabelMap::new(),
                s3_operations: LabelMap::new(),
                active_connections: 0,
                bytes_sent: 0,
                bytes_received: 0,
                memory_usage: 0,
                uptime_seconds: 0,
                s3_errors: LabelMap::new(),
                reload_success: 0,
                reload_failure: 0,
                config_generation: 0,
                concurrency_limit_rejections: 0,
                rate_limit_exceeded: LabelMap::new(),
                s3_retry_attempts: LabelMap::new(),
                s3_retry_success: LabelMap::new(),
                s3_retry_exhausted: LabelMap::new(),
                security_payload_too_large: 0,
                security_headers_too_large: 0,
                security_uri_too_long: 0,
                security_path_traversal_blocked: 0,
                security_sql_injection_blocked: 0,
                backend_health: LabelMap::new(),
                replica_request_counts: LabelMap::new(),
                replica_error_counts: LabelMap::new(),
                replica_latencies: LabelMap::new(),
                replica_failovers: LabelMap::new(),
                replica_health: LabelMap::new(),
                active_replica: LabelMap::new(),
                cache_hits: 0,
                cache_misses: 0,
                cache_evictions: 0,
                cache_purges: 0,
                cache_size_bytes: 0,
                cache_items: 0,
                cache_get_durations: Vec::new(),
                cache_set_durations: Vec::new(),
                cache_hits_by_bucket_layer: LabelMap::new(),
                cache_misses_by_bucket_layer: LabelMap::new(),
                cache_evictions_by_layer: LabelMap::new(),
                cache_size_by_layer: LabelMap::new(),
                cache_items_by_layer: LabelMap::new(),
                cache_sendfile_count: 0,
                cache_sendfile_bytes: 0,
                opa_cache_hits: 0,
                opa_cache_misses: 0,
                opa_evaluation_durations: Vec::new(),
                prewarm_tasks_total: 0,
                prewarm_files_total: 0,
                prewarm_bytes_total: 0,
                prewarm_errors_total: 0,
                prewarm_duration_seconds: Vec::new(),
                image_processing_total: 0,
                image_processing_errors: 0,
                image_processing_durations: Vec::new(),
                image_bytes_saved: 0,
                image_bytes_original: 0,
                image_bytes_processed: 0,
                image_cache_hits: 0,
                image_cache_misses: 0,
                image_transformations: LabelMap::new(),
                image_formats: LabelMap::new(),
                image_errors_by_type: LabelMap::new(),
        };
        assert(r@ =~= metrics_empty());
        r
    }

    /// Check if metrics struct is valid (always true).
    pub fn is_valid(&self) -> (r: bool)
        ensures
            r,
    {
        true
    }

        /// Increment the total request count.
        pub fn increment_request_count(&mut self)
            ensures
                final(self)@ == (MetricsView { request_count: wrap_inc(old(self)@.request_count), ..old(self)@ }),
        {
            self.request_count = self.request_count.wrapping_add(1);
        }

        /// Increment cache hit counter.
        pub fn increment_cache_hit(&mut self)
            ensures
                final(self)@ == (MetricsView { cache_hits: wrap_inc(old(self)@.cache_hits), ..old(self)@ }),
        {
            self.cache_hits = self.cache_hits.wrapping_add(1);
        }

        /// Increment cache miss counter.
        pub fn increment_cache_miss(&mut self)
            ensures
                final(self)@ == (MetricsView { cache_misses: wrap_inc(old(self)@.cache_misses), ..old(self)@ }),
        {
            self.cache_misses = self.cache_misses.wrapping_add(1);
        }

        /// Increment cache eviction counter.
        pub fn increment_cache_eviction(&mut self)
            ensures
                final(self)@ == (MetricsView { cache_evictions: wrap_inc(old(self)@.cache_evictions), ..old(self)@ }),
        {
            self.cache_evictions = self.cache_evictions.wrapping_add(1);
        }

        /// Increment cache purge counter.
        pub fn increment_cache_purge(&mut self)
            ensures
                final(self)@ == (MetricsView { cache_purges: wrap_inc(old(self)@.cache_purges), ..old(self)@ }),
        {
            self.cache_purges = self.cache_purges.wrapping_add(1);
        }

        /// Increment sendfile response counter.
        pub fn increment_cache_sendfile(&mut self)
            ensures
                final(self)@ == (MetricsView { cache_sendfile_count: wrap_inc(old(self)@.cache_sendfile_count), ..old(self)@ }),
        {
            self.cache_sendfile_count = self.cache_sendfile_count.wrapping_add(1);
        }

        /// Increment OPA cache hit counter.
        pub fn increment_opa_cache_hit(&mut self)
            ensures
                final(self)@ == (MetricsView { opa_cache_hits: wrap_inc(old(self)@.opa_cache_hits), ..old(self)@ }),
        {
            self.opa_cache_hits = self.opa_cache_hits.wrapping_add(1);
        }

        /// Increment OPA cache miss counter.
        pub fn increment_opa_cache_miss(&mut self)
            ensures
                final(self)@ == (MetricsView { opa_cache_misses: wrap_inc(old(self)@.opa_cache_misses), ..old(self)@ }),
        {
            self.opa_cache_misses = self.opa_cache_misses.wrapping_add(1);
        }

        /// Increment successful authentication counter.
        pub fn increment_auth_success(&mut self)
            ensures
                final(self)@ == (MetricsView { auth_success: wrap_inc(old(self)@.auth_success), ..old(self)@ }),
        {
            self.auth_success = self.auth_success.wrapping_add(1);
        }

        /// Increment failed authentication counter.
        pub fn increment_auth_failure(&mut self)
            ensures
                final(self)@ == (MetricsView { auth_failure: wrap_inc(old(self)@.auth_failure), ..old(self)@ }),
        {
            self.auth_failure = self.auth_failure.wrapping_add(1);
        }

        /// Increment authentication bypassed counter (public buckets).
        pub fn increment_auth_bypassed(&mut self)
            ensures
                final(self)@ == (MetricsView { auth_bypassed: wrap_inc(old(self)@.auth_bypassed), ..old(self)@ }),
        {
            self.auth_bypassed = self.auth_bypassed.wrapping_add(1);
        }

        /// Increment total prewarm tasks counter.
        pub fn increment_prewarm_tasks(&mut self)
            ensures
                final(self)@ == (MetricsView { prewarm_tasks_total: wrap_inc(old(self)@.prewarm_tasks_total), ..old(self)@ }),
        {
            self.prewarm_tasks_total = self.prewarm_tasks_total.wrapping_add(1);
        }

        /// Increment prewarm errors counter.
        pub fn increment_prewarm_errors(&mut self)
            ensures
                final(self)@ == (MetricsView { prewarm_errors_total: wrap_inc(old(self)@.prewarm_errors_total), ..old(self)@ }),
        {
            self.prewarm_errors_total = self.prewarm_errors_total.wrapping_add(1);
        }

        /// Increment active connections count (new client connected).
        pub fn increment_active_connections(&mut self)
            ensures
                final(self)@ == (MetricsView { active_connections: wrap_inc(old(self)@.active_connections), ..old(self)@ }),
        {
            self.active_connections = self.active_connections.wrapping_add(1);
        }

        /// Increment successful config reload counter.
        pub fn increment_reload_success(&mut self)
            ensures
                final(self)@ == (MetricsView { reload_success: wrap_inc(old(self)@.reload_success), ..old(self)@ }),
        {
            self.reload_success = self.reload_success.wrapping_add(1);
        }

        /// Increment failed config reload counter.
        pub fn increment_reload_failure(&mut self)
            ensures
                final(self)@ == (MetricsView { reload_failure: wrap_inc(old(self)@.reload_failure), ..old(self)@ }),
        {
            self.reload_failure = self.reload_failure.wrapping_add(1);
        }

        /// Increment concurrency limit rejection counter (503 responses).
        pub fn increment_concurrency_limit_rejection(&mut self)
            ensures
                final(self)@ == (MetricsView { concurrency_limit_rejections: wrap_inc(old(self)@.concurrency_limit_rejections), ..old(self)@ }),
        {
            self.concurrency_limit_rejections = self.concurrency_limit_rejections.wrapping_add(1);
        }

        /// Increment security validation: payload too large (413 responses).
        pub fn increment_security_payload_too_large(&mut self)
            ensures
                final(self)@ == (MetricsView { security_payload_too_large: wrap_inc(old(self)@.security_payload_too_large), ..old(self)@ }),
        {
            self.security_payload_too_large = self.security_payload_too_large.wrapping_add(1);
        }

        /// Increment security validation: headers too large (431 responses).
        pub fn increment_security_headers_too_large(&mut self)
            ensures
                final(self)@ == (MetricsView { security_headers_too_large: wrap_inc(old(self)@.security_headers_too_large), ..old(self)@ }),
        {
            self.security_headers_too_large = self.security_headers_too_large.wrapping_add(1);
        }

        /// Increment security validation: URI too long (414 responses).
        pub fn increment_security_uri_too_long(&mut self)
            ensures
                final(self)@ == (MetricsView { security_uri_too_long: wrap_inc(old(self)@.security_uri_too_long), ..old(self)@ }),
        {
            self.security_uri_too_long = self.security_uri_too_long.wrapping_add(1);
        }

        /// Increment security validation: path traversal blocked (400 responses).
        pub fn increment_security_path_traversal_blocked(&mut self)
            ensures
                final(self)@ == (MetricsView { security_path_traversal_blocked: wrap_inc(old(self)@.security_path_traversal_blocked), ..old(self)@ }),
        {
            self.security_path_traversal_blocked = self.security_path_traversal_blocked.wrapping_add(1);
        }

        /// Increment security validation: SQL injection blocked (400 responses).
        pub fn increment_security_sql_injection_blocked(&mut self)
            ensures
                final(self)@ == (MetricsView { security_sql_injection_blocked: wrap_inc(old(self)@.security_sql_injection_blocked), ..old(self)@ }),
        {
            self.security_sql_injection_blocked = self.security_sql_injection_blocked.wrapping_add(1);
        }

        /// Add bytes served via sendfile (wrapping at `u64::MAX`).
        pub fn add_cache_sendfile_bytes(&mut self, bytes: u64)
            ensures
                final(self)@ == (MetricsView {
                    cache_sendfile_bytes: vstd::wrapping::u64_specs::wrapping_add(old(self)@.cache_sendfile_bytes, bytes),
                    ..old(self)@
                }),
        {
            self.cache_sendfile_bytes = self.cache_sendfile_bytes.wrapping_add(bytes);
        }

        /// Increment prewarm cached files counter (wrapping at `u64::MAX`).
        pub fn increment_prewarm_files(&mut self, count: u64)
            ensures
                final(self)@ == (MetricsView {
                    prewarm_files_total: vstd::wrapping::u64_specs::wrapping_add(old(self)@.prewarm_files_total, count),
                    ..old(self)@
                }),
        {
            self.prewarm_files_total = self.prewarm_files_total.wrapping_add(count);
        }

        /// Increment prewarm cached bytes counter (wrapping at `u64::MAX`).
        pub fn increment_prewarm_bytes(&mut self, bytes: u64)
            ensures
                final(self)@ == (MetricsView {
                    prewarm_bytes_total: vstd::wrapping::u64_specs::wrapping_add(old(self)@.prewarm_bytes_total, bytes),
                    ..old(self)@
                }),
        {
            self.prewarm_bytes_total = self.prewarm_bytes_total.wrapping_add(bytes);
        }

        /// Add bytes sent to client (wrapping at `u64::MAX`).
        pub fn add_bytes_sent(&mut self, bytes: u64)
            ensures
                final(self)@ == (MetricsView {
                    bytes_sent: vstd::wrapping::u64_specs::wrapping_add(old(self)@.bytes_sent, bytes),
                    ..old(self)@
                }),
        {
            self.bytes_sent = self.bytes_sent.wrapping_add(bytes);
        }

        /// Add bytes received from client (wrapping at `u64::MAX`).
        pub fn add_bytes_received(&mut self, bytes: u64)
            ensures
                final(self)@ == (MetricsView {
                    bytes_received: vstd::wrapping::u64_specs::wrapping_add(old(self)@.bytes_received, bytes),
                    ..old(self)@
                }),
        {
            self.bytes_received = self.bytes_received.wrapping_add(bytes);
        }

        /// Update cache size gauge in bytes.
        pub fn set_cache_size_bytes(&mut self, size_bytes: u64)
            ensures
                final(self)@ == (MetricsView { cache_size_bytes: size_bytes, ..old(self)@ }),
        {
            self.cache_size_bytes = size_bytes;
        }

        /// Update cache items gauge.
        pub fn set_cache_items(&mut self, item_count: u64)
            ensures
                final(self)@ == (MetricsView { cache_items: item_count, ..old(self)@ }),
        {
            self.cache_items = item_count;
        }

        /// Update memory usage (RSS in bytes).
        pub fn update_memory_usage(&mut self, bytes: u64)
            ensures
                final(self)@ == (MetricsView { memory_usage: bytes, ..old(self)@ }),
        {
            self.memory_usage = bytes;
        }

        /// Update uptime (seconds since start).
        pub fn update_uptime(&mut self, seconds: u64)
            ensures
                final(self)@ == (MetricsView { uptime_seconds: seconds, ..old(self)@ }),
        {
            self.uptime_seconds = seconds;
        }

        /// Set current config generation number.
        pub fn set_config_generation(&mut self, generation: u64)
            ensures
                final(self)@ == (MetricsView { config_generation: generation, ..old(self)@ }),
        {
            self.config_generation = generation;
        }

        /// Get current request count.
        pub fn get_request_count(&self) -> (r: u64)
            ensures
                r == self@.request_count,
        {
            self.request_count
        }

        /// Get sendfile response count.
        pub fn get_cache_sendfile_count(&self) -> (r: u64)
            ensures
                r == self@.cache_sendfile_count,
        {
            self.cache_sendfile_count
        }

        /// Get total bytes served via sendfile.
        pub fn get_cache_sendfile_bytes(&self) -> (r: u64)
            ensures
                r == self@.cache_sendfile_bytes,
        {
            self.cache_sendfile_bytes
        }

        /// Get successful authentication count.
        pub fn get_auth_success_count(&self) -> (r: u64)
            ensures
                r == self@.auth_success,
        {
            self.auth_success
        }

        /// Get failed authentication count.
        pub fn get_auth_failure_count(&self) -> (r: u64)
            ensures
                r == self@.auth_failure,
        {
            self.auth_failure
        }

        /// Get authentication bypassed count.
        pub fn get_auth_bypassed_count(&self) -> (r: u64)
            ensures
                r == self@.auth_bypassed,
        {
            self.auth_bypassed
        }

        /// Get cache hit count.
        pub fn get_cache_hit_count(&self) -> (r: u64)
            ensures
                r == self@.cache_hits,
        {
            self.cache_hits
        }

        /// Get cache miss count.
        pub fn get_cache_miss_count(&self) -> (r: u64)
            ensures
                r == self@.cache_misses,
        {
            self.cache_misses
        }

        /// Get cache eviction count.
        pub fn get_cache_eviction_count(&self) -> (r: u64)
            ensures
                r == self@.cache_evictions,
        {
            self.cache_evictions
        }

        /// Get cache purge count.
        pub fn get_cache_purge_count(&self) -> (r: u64)
            ensures
                r == self@.cache_purges,
        {
            self.cache_purges
        }

        /// Get cache size in bytes.
        pub fn get_cache_size_bytes(&self) -> (r: u64)
            ensures
                r == self@.cache_size_bytes,
        {
            self.cache_size_bytes
        }

        /// Get cache item count.
        pub fn get_cache_items(&self) -> (r: u64)
            ensures
                r == self@.cache_items,
        {
            self.cache_items
        }

        /// Get OPA cache hit count.
        pub fn get_opa_cache_hit_count(&self) -> (r: u64)
            ensures
                r == self@.opa_cache_hits,
        {
            self.opa_cache_hits
        }

        /// Get OPA cache miss count.
        pub fn get_opa_cache_miss_count(&self) -> (r: u64)
            ensures
                r == self@.opa_cache_misses,
        {
            self.opa_cache_misses
        }

        /// Get prewarm tasks count.
        pub fn get_prewarm_tasks_count(&self) -> (r: u64)
            ensures
                r == self@.prewarm_tasks_total,
        {
            self.prewarm_tasks_total
        }

        /// Get prewarm files count.
        pub fn get_prewarm_files_count(&self) -> (r: u64)
            ensures
                r == self@.prewarm_files_total,
        {
            self.prewarm_files_total
        }

        /// Get image processing total count.
        pub fn get_image_processing_total(&self) -> (r: u64)
            ensures
                r == self@.image_processing_total,
        {
            self.image_processing_total
        }

        /// Get image processing error count.
        pub fn get_image_processing_errors(&self) -> (r: u64)
            ensures
                r == self@.image_processing_errors,
        {
            self.image_processing_errors
        }

        /// Get image bytes saved.
        pub fn get_image_bytes_saved(&self) -> (r: u64)
            ensures
                r == self@.image_bytes_saved,
        {
            self.image_bytes_saved
        }

        /// Get image cache hits.
        pub fn get_image_cache_hits(&self) -> (r: u64)
            ensures
                r == self@.image_cache_hits,
        {
            self.image_cache_hits
        }

        /// Get image cache misses.
        pub fn get_image_cache_misses(&self) -> (r: u64)
            ensures
                r == self@.image_cache_misses,
        {
            self.image_cache_misses
        }

        /// Get active connections count.
        pub fn get_active_connections(&self) -> (r: u64)
            ensures
                r == self@.active_connections,
        {
            self.active_connections
        }

        /// Get bytes sent.
        pub fn get_bytes_sent(&self) -> (r: u64)
            ensures
                r == self@.bytes_sent,
        {
            self.bytes_sent
        }

        /// Get bytes received.
        pub fn get_bytes_received(&self) -> (r: u64)
            ensures
                r == self@.bytes_received,
        {
            self.bytes_received
        }

        /// Get memory usage.
        pub fn get_memory_usage(&self) -> (r: u64)
            ensures
                r == self@.memory_usage,
        {
            self.memory_usage
        }

        /// Get uptime in seconds.
        pub fn get_uptime_seconds(&self) -> (r: u64)
            ensures
                r == self@.uptime_seconds,
        {
            self.uptime_seconds
        }

        /// Get successful reload count.
        pub fn get_reload_success_count(&self) -> (r: u64)
            ensures
                r == self@.reload_success,
        {
            self.reload_success
        }

        /// Get failed reload count.
        pub fn get_reload_failure_count(&self) -> (r: u64)
            ensures
                r == self@.reload_failure,
        {
            self.reload_failure
        }

        /// Get current config generation.
        pub fn get_config_generation(&self) -> (r: u64)
            ensures
                r == self@.config_generation,
        {
            self.config_generation
        }

        /// Get concurrency limit rejection count.
        pub fn get_concurrency_limit_rejections(&self) -> (r: u64)
            ensures
                r == self@.concurrency_limit_rejections,
        {
            self.concurrency_limit_rejections
        }

        /// Increment counter for a specific bucket name.
        pub fn increment_bucket_count(&mut self, bucket_name: &str)
            ensures
                final(self)@ == (MetricsView {
                    bucket_counts: label_increment(old(self)@.bucket_counts, bucket_name@),
                    ..old(self)@
                }),
        {
            self.bucket_counts.increment(bucket_name);
        }

        /// Increment counter for a specific HTTP method.
        pub fn increment_method_count(&mut self, method: &str)
            ensures
                final(self)@ == (MetricsView {
                    method_counts: label_increment(old(self)@.method_counts, method@),
                    ..old(self)@
                }),
        {
            self.method_counts.increment(method);
        }

        /// Increment counter for a specific authentication error type.
        pub fn increment_auth_error(&mut self, error_type: &str)
            ensures
                final(self)@ == (MetricsView {
                    auth_errors: label_increment(old(self)@.auth_errors, error_type@),
                    ..old(self)@
                }),
        {
            self.auth_errors.increment(error_type);
        }

        /// Increment counter for a specific S3 operation.
        pub fn increment_s3_operation(&mut self, operation: &str)
            ensures
                final(self)@ == (MetricsView {
                    s3_operations: label_increment(old(self)@.s3_operations, operation@),
                    ..old(self)@
                }),
        {
            self.s3_operations.increment(operation);
        }

        /// Increment counter for a specific S3 error code.
        pub fn increment_s3_error(&mut self, error_code: &str)
            ensures
                final(self)@ == (MetricsView {
                    s3_errors: label_increment(old(self)@.s3_errors, error_code@),
                    ..old(self)@
                }),
        {
            self.s3_errors.increment(error_code);
        }

        /// Increment rate limit exceeded counter for a bucket (429 responses).
        pub fn increment_rate_limit_exceeded(&mut self, bucket: &str)
            ensures
                final(self)@ == (MetricsView {
                    rate_limit_exceeded: label_increment(old(self)@.rate_limit_exceeded, bucket@),
                    ..old(self)@
                }),
        {
            self.rate_limit_exceeded.increment(bucket);
        }

        /// Increment S3 retry attempt counter for a bucket.
        pub fn increment_s3_retry_attempt(&mut self, bucket: &str)
            ensures
                final(self)@ == (MetricsView {
                    s3_retry_attempts: label_increment(old(self)@.s3_retry_attempts, bucket@),
                    ..old(self)@
                }),
        {
            self.s3_retry_attempts.increment(bucket);
        }

        /// Increment S3 retry success counter for a bucket (eventually succeeded after retry).
        pub fn increment_s3_retry_success(&mut self, bucket: &str)
            ensures
                final(self)@ == (MetricsView {
                    s3_retry_success: label_increment(old(self)@.s3_retry_success, bucket@),
                    ..old(self)@
                }),
        {
            self.s3_retry_success.increment(bucket);
        }

        /// Increment S3 retry exhausted counter for a bucket (all attempts failed).
        pub fn increment_s3_retry_exhausted(&mut self, bucket: &str)
            ensures
                final(self)@ == (MetricsView {
                    s3_retry_exhausted: label_increment(old(self)@.s3_retry_exhausted, bucket@),
                    ..old(self)@
                }),
        {
            self.s3_retry_exhausted.increment(bucket);
        }

        /// Get count for specific bucket (0 when never counted).
        pub fn get_bucket_count(&self, bucket_name: &str) -> (r: u64)
            ensures
                r == label_count(self@.bucket_counts, bucket_name@),
        {
            self.bucket_counts.count(bucket_name)
        }

        /// Get count for specific HTTP method (0 when never counted).
        pub fn get_method_count(&self, method: &str) -> (r: u64)
            ensures
                r == label_count(self@.method_counts, method@),
        {
            self.method_counts.count(method)
        }

        /// Get count for specific auth error type (0 when never counted).
        pub fn get_auth_error_count(&self, error_type: &str) -> (r: u64)
            ensures
                r == label_count(self@.auth_errors, error_type@),
        {
            self.auth_errors.count(error_type)
        }

        /// Get count for specific S3 operation (0 when never counted).
        pub fn get_s3_operation_count(&self, operation: &str) -> (r: u64)
            ensures
                r == label_count(self@.s3_operations, operation@),
        {
            self.s3_operations.count(operation)
        }

        /// Get count for specific S3 error code (0 when never counted).
        pub fn get_s3_error_count(&self, error_code: &str) -> (r: u64)
            ensures
                r == label_count(self@.s3_errors, error_code@),
        {
            self.s3_errors.count(error_code)
        }

        /// Get transformation count by type (0 when never counted).
        pub fn get_image_transformation_count(&self, transformation: &str) -> (r: u64)
            ensures
                r == label_count(self@.image_transformations, transformation@),
        {
            self.image_transformations.count(transformation)
        }

        /// Get format count (0 when never counted).
        pub fn get_image_format_count(&self, format: &str) -> (r: u64)
            ensures
                r == label_count(self@.image_formats, format@),
        {
            self.image_formats.count(format)
        }

        /// Get error count by type (0 when never counted).
        pub fn get_image_error_count(&self, error_type: &str) -> (r: u64)
            ensures
                r == label_count(self@.image_errors_by_type, error_type@),
        {
            self.image_errors_by_type.count(error_type)
        }

    /// Decrement active connections count (client disconnected), wrapping
    /// below zero as an atomic `fetch_sub` does.
    pub fn decrement_active_connections(&mut self)
        ensures
            final(self)@ == (MetricsView {
                active_connections: vstd::wrapping::u64_specs::wrapping_sub(
                    old(self)@.active_connections,
                    1,
                ),
                ..old(self)@
            }),
    {
        self.active_connections = self.active_connections.wrapping_sub(1);
    }

    /// Increment counter for a specific HTTP status code.
    pub fn increment_status_count(&mut self, status_code: u16)
        ensures
            final(self)@ == (MetricsView {
                status_counts: label_increment(old(self)@.status_counts, decimal(status_code as nat)),
                ..old(self)@
            }),
            labels_unique(final(self)@.status_counts),
            forall|k: u16|
                #[trigger] label_count(final(self)@.status_counts, decimal(k as nat)) == if k == status_code {
                    wrap_inc(label_count(old(self)@.status_counts, decimal(k as nat)))
                } else {
                    label_count(old(self)@.status_counts, decimal(k as nat))
                },
    {
        proof {
            use_type_invariant(&self.status_counts);
        }
        let key = u64_to_decimal(status_code as u64);
        self.status_counts.increment(key.as_str());
        proof {
            let s = old(self)@.status_counts;
            let c = decimal(status_code as nat);
            assert forall|k: u16|
                #[trigger] label_count(self@.status_counts, decimal(k as nat)) == if k == status_code {
                    wrap_inc(label_count(s, decimal(k as nat)))
                } else {
                    label_count(s, decimal(k as nat))
                } by {
                lemma_decimal_injective(k as nat, status_code as nat);
                lemma_label_insert(s, c, wrap_inc(label_count(s, c)), decimal(k as nat));
            }
            lemma_label_insert(s, c, wrap_inc(label_count(s, c)), c);
        }
    }

    /// Get count for specific status code (0 when never counted).
    pub fn get_status_count(&self, status_code: u16) -> (r: u64)
        ensures
            r == label_count(self@.status_counts, decimal(status_code as nat)),
    {
        let key = u64_to_decimal(status_code as u64);
        self.status_counts.count(key.as_str())
    }

    /// Record a request duration in microseconds.
    pub fn record_duration_us(&mut self, duration_us: u64)
        ensures
            final(self)@ == (MetricsView {
                durations: old(self)@.durations.push(duration_us),
                ..old(self)@
            }),
    {
        self.durations.push(duration_us);
    }

    /// Record an S3 backend latency in microseconds.
    pub fn record_s3_latency_us(&mut self, duration_us: u64)
        ensures
            final(self)@ == (MetricsView {
                s3_latencies: old(self)@.s3_latencies.push(duration_us),
                ..old(self)@
            }),
    {
        self.s3_latencies.push(duration_us);
    }

    /// Record a cache get duration in microseconds.
    pub fn record_cache_get_duration_us(&mut self, duration_us: u64)
        ensures
            final(self)@ == (MetricsView {
                cache_get_durations: old(self)@.cache_get_durations.push(duration_us),
                ..old(self)@
            }),
    {
        self.cache_get_durations.push(duration_us);
    }

    /// Record a cache set duration in microseconds.
    pub fn record_cache_set_duration_us(&mut self, duration_us: u64)
        ensures
            final(self)@ == (MetricsView {
                cache_set_durations: old(self)@.cache_set_durations.push(duration_us),
                ..old(self)@
            }),
    {
        self.cache_set_durations.push(duration_us);
    }

    /// Record OPA evaluation duration in microseconds.
    pub fn record_opa_evaluation_duration(&mut self, duration_us: u64)
        ensures
            final(self)@ == (MetricsView {
                opa_evaluation_durations: old(self)@.opa_evaluation_durations.push(duration_us),
                ..old(self)@
            }),
    {
        self.opa_evaluation_durations.push(duration_us);
    }

    /// Record prewarm task duration in seconds (kept in microseconds).
    pub fn record_prewarm_duration(&mut self, duration_secs: u64)
        requires
            duration_secs * 1_000_000 <= u64::MAX,
        ensures
            final(self)@ == (MetricsView {
                prewarm_duration_seconds: old(self)@.prewarm_duration_seconds.push(
                    (duration_secs * 1_000_000) as u64,
                ),
                ..old(self)@
            }),
    {
        self.prewarm_duration_seconds.push(duration_secs * 1_000_000);
    }

    /// Record latency for a specific bucket, in microseconds.
    pub fn record_bucket_latency_us(&mut self, bucket_name: &str, duration_us: u64)
        ensures
            final(self)@ == (MetricsView { bucket_latencies: final(self)@.bucket_latencies, ..old(self)@ }),
            crate::labels::sample_appended(
                old(self)@.bucket_latencies,
                final(self)@.bucket_latencies,
                bucket_name@,
                duration_us,
            ),
            label_value(final(self)@.bucket_latencies, bucket_name@) matches Some(v) && v@
                == match label_value(old(self)@.bucket_latencies, bucket_name@) {
                Some(w) => w@.push(duration_us),
                None => seq![duration_us],
            },
    {
        self.bucket_latencies.push_sample(bucket_name, duration_us);
        proof {
            samples_pushed(old(self)@.bucket_latencies, self@.bucket_latencies, bucket_name@, duration_us);
        }
    }

    /// Record latency for a specific replica within a bucket, in
    /// microseconds.
    pub fn record_replica_latency_us(&mut self, bucket: &str, replica: &str, duration_us: u64)
        ensures
            final(self)@ == (MetricsView { replica_latencies: final(self)@.replica_latencies, ..old(self)@ }),
            crate::labels::sample_appended(
                old(self)@.replica_latencies,
                final(self)@.replica_latencies,
                label2(bucket@, replica@),
                duration_us,
            ),
            label_value(final(self)@.replica_latencies, label2(bucket@, replica@)) matches Some(v)
                && v@ == match label_value(old(self)@.replica_latencies, label2(bucket@, replica@)) {
                Some(w) => w@.push(duration_us),
                None => seq![duration_us],
            },
    {
        let key = make_label2(bucket, replica);
        self.replica_latencies.push_sample(key.as_str(), duration_us);
        proof {
            samples_pushed(old(self)@.replica_latencies, self@.replica_latencies, key@, duration_us);
        }
    }

    /// Request durations recorded so far, in microseconds.
    pub fn duration_samples(&self) -> (r: &Vec<u64>)
        ensures
            r@ == self@.durations,
    {
        &self.durations
    }

    /// S3 latencies recorded so far, in microseconds.
    pub fn s3_latency_samples(&self) -> (r: &Vec<u64>)
        ensures
            r@ == self@.s3_latencies,
    {
        &self.s3_latencies
    }

    /// Latencies recorded for a bucket, in microseconds.
    pub fn bucket_latency_samples(&self, bucket_name: &str) -> (r: Option<&Vec<u64>>)
        ensures
            match label_value(self@.bucket_latencies, bucket_name@) {
                Some(v) => r == Some(&v),
                None => r is None,
            },
    {
        self.bucket_latencies.get(bucket_name)
    }

    /// Latencies recorded for a replica of a bucket, in microseconds.
    pub fn replica_latency_samples(&self, bucket: &str, replica: &str) -> (r: Option<&Vec<u64>>)
        ensures
            match label_value(self@.replica_latencies, label2(bucket@, replica@)) {
                Some(v) => r == Some(&v),
                None => r is None,
            },
    {
        let key = make_label2(bucket, replica);
        self.replica_latencies.get(key.as_str())
    }

    /// OPA evaluation durations recorded so far, in microseconds.
    pub fn opa_evaluation_samples(&self) -> (r: &Vec<u64>)
        ensures
            r@ == self@.opa_evaluation_durations,
    {
        &self.opa_evaluation_durations
    }

    /// Image processing durations recorded so far, in microseconds.
    pub fn image_processing_samples(&self) -> (r: &Vec<u64>)
        ensures
            r@ == self@.image_processing_durations,
    {
        &self.image_processing_durations
    }

    /// Get cache get durations in microseconds.
    pub fn get_cache_get_durations(&self) -> (r: Vec<u64>)
        ensures
            r@ == self@.cache_get_durations,
    {
        copy_samples(&self.cache_get_durations)
    }

    /// Get cache set durations in microseconds.
    pub fn get_cache_set_durations(&self) -> (r: Vec<u64>)
        ensures
            r@ == self@.cache_set_durations,
    {
        copy_samples(&self.cache_set_durations)
    }

    /// Increment cache hit counter with bucket and layer labels: the global
    /// counter and the `bucket:layer` counter both count it.
    pub fn increment_cache_hit_with_labels(&mut self, bucket: &str, layer: &str)
        ensures
            final(self)@ == (MetricsView {
                cache_hits: wrap_inc(old(self)@.cache_hits),
                cache_hits_by_bucket_layer: label_increment(
                    old(self)@.cache_hits_by_bucket_layer,
                    label2(bucket@, layer@),
                ),
                ..old(self)@
            }),
    {
        self.cache_hits = self.cache_hits.wrapping_add(1);
        let key = make_label2(bucket, layer);
        self.cache_hits_by_bucket_layer.increment(key.as_str());
    }

    /// Increment cache miss counter with bucket and layer labels.
    pub fn increment_cache_miss_with_labels(&mut self, bucket: &str, layer: &str)
        ensures
            final(self)@ == (MetricsView {
                cache_misses: wrap_inc(old(self)@.cache_misses),
                cache_misses_by_bucket_layer: label_increment(
                    old(self)@.cache_misses_by_bucket_layer,
                    label2(bucket@, layer@),
                ),
                ..old(self)@
            }),
    {
        self.cache_misses = self.cache_misses.wrapping_add(1);
        let key = make_label2(bucket, layer);
        self.cache_misses_by_bucket_layer.increment(key.as_str());
    }

    /// Increment cache eviction counter with layer label.
    pub fn increment_cache_eviction_with_layer(&mut self, layer: &str)
        ensures
            final(self)@ == (MetricsView {
                cache_evictions: wrap_inc(old(self)@.cache_evictions),
                cache_evictions_by_layer: label_increment(old(self)@.cache_evictions_by_layer, layer@),
                ..old(self)@
            }),
    {
        self.cache_evictions = self.cache_evictions.wrapping_add(1);
        self.cache_evictions_by_layer.increment(layer);
    }

    /// Update cache size gauge with layer label.
    pub fn set_cache_size_with_layer(&mut self, layer: &str, size_bytes: u64)
        ensures
            final(self)@ == (MetricsView {
                cache_size_by_layer: label_insert(old(self)@.cache_size_by_layer, layer@, size_bytes),
                ..old(self)@
            }),
    {
        self.cache_size_by_layer.insert(layer, size_bytes);
    }

    /// Update cache items gauge with layer label.
    pub fn set_cache_items_with_layer(&mut self, layer: &str, item_count: u64)
        ensures
            final(self)@ == (MetricsView {
                cache_items_by_layer: label_insert(old(self)@.cache_items_by_layer, layer@, item_count),
                ..old(self)@
            }),
    {
        self.cache_items_by_layer.insert(layer, item_count);
    }

    /// Get cache hits by bucket and layer.
    pub fn get_cache_hits_by_bucket_layer(&self) -> (r: Vec<(String, u64)>)
        ensures
            entries_view(r@) == self@.cache_hits_by_bucket_layer,
    {
        copy_counts(&self.cache_hits_by_bucket_layer)
    }

    /// Get cache misses by bucket and layer.
    pub fn get_cache_misses_by_bucket_layer(&self) -> (r: Vec<(String, u64)>)
        ensures
            entries_view(r@) == self@.cache_misses_by_bucket_layer,
    {
        copy_counts(&self.cache_misses_by_bucket_layer)
    }

    /// Get cache evictions by layer.
    pub fn get_cache_evictions_by_layer(&self) -> (r: Vec<(String, u64)>)
        ensures
            entries_view(r@) == self@.cache_evictions_by_layer,
    {
        copy_counts(&self.cache_evictions_by_layer)
    }

    /// Get cache size by layer.
    pub fn get_cache_size_by_layer(&self) -> (r: Vec<(String, u64)>)
        ensures
            entries_view(r@) == self@.cache_size_by_layer,
    {
        copy_counts(&self.cache_size_by_layer)
    }

    /// Get cache items by layer.
    pub fn get_cache_items_by_layer(&self) -> (r: Vec<(String, u64)>)
        ensures
            entries_view(r@) == self@.cache_items_by_layer,
    {
        copy_counts(&self.cache_items_by_layer)
    }

    /// Set backend health status for a bucket.
    pub fn set_backend_health(&mut self, bucket_name: &str, is_healthy: bool)
        ensures
            final(self)@ == (MetricsView {
                backend_health: label_insert(old(self)@.backend_health, bucket_name@, is_healthy),
                ..old(self)@
            }),
    {
        self.backend_health.insert(bucket_name, is_healthy);
    }

    /// Get backend health status for all buckets.
    pub fn get_backend_health(&self) -> (r: Vec<(String, bool)>)
        ensures
            entries_view(r@) == self@.backend_health,
    {
        copy_flags(&self.backend_health)
    }

    /// Increment request count for a specific replica within a bucket.
    pub fn increment_replica_request_count(&mut self, bucket: &str, replica: &str)
        ensures
            final(self)@ == (MetricsView {
                replica_request_counts: label_increment(
                    old(self)@.replica_request_counts,
                    label2(bucket@, replica@),
                ),
                ..old(self)@
            }),
    {
        let key = make_label2(bucket, replica);
        self.replica_request_counts.increment(key.as_str());
    }

    /// Get request count for a specific replica.
    pub fn get_replica_request_count(&self, bucket: &str, replica: &str) -> (r: u64)
        ensures
            r == label_count(self@.replica_request_counts, label2(bucket@, replica@)),
    {
        let key = make_label2(bucket, replica);
        self.replica_request_counts.count(key.as_str())
    }

    /// Increment error count for a specific replica within a bucket.
    pub fn increment_replica_error_count(&mut self, bucket: &str, replica: &str)
        ensures
            final(self)@ == (MetricsView {
                replica_error_counts: label_increment(
                    old(self)@.replica_error_counts,
                    label2(bucket@, replica@),
                ),
                ..old(self)@
            }),
    {
        let key = make_label2(bucket, replica);
        self.replica_error_counts.increment(key.as_str());
    }

    /// Get error count for a specific replica.
    pub fn get_replica_error_count(&self, bucket: &str, replica: &str) -> (r: u64)
        ensures
            r == label_count(self@.replica_error_counts, label2(bucket@, replica@)),
    {
        let key = make_label2(bucket, replica);
        self.replica_error_counts.count(key.as_str())
    }

    /// Increment failover counter for a specific failover path (from → to).
    pub fn increment_replica_failover(&mut self, bucket: &str, from: &str, to: &str)
        ensures
            final(self)@ == (MetricsView {
                replica_failovers: label_increment(
                    old(self)@.replica_failovers,
                    label3(bucket@, from@, to@),
                ),
                ..old(self)@
            }),
    {
        let key = make_label3(bucket, from, to);
        self.replica_failovers.increment(key.as_str());
    }

    /// Get failover count for a specific failover path.
    pub fn get_replica_failover_count(&self, bucket: &str, from: &str, to: &str) -> (r: u64)
        ensures
            r == label_count(self@.replica_failovers, label3(bucket@, from@, to@)),
    {
        let key = make_label3(bucket, from, to);
        self.replica_failovers.count(key.as_str())
    }

    /// Set health status for a specific replica.
    pub fn set_replica_health(&mut self, bucket: &str, replica: &str, is_healthy: bool)
        ensures
            final(self)@ == (MetricsView {
                replica_health: label_insert(old(self)@.replica_health, label2(bucket@, replica@), is_healthy),
                ..old(self)@
            }),
    {
        let key = make_label2(bucket, replica);
        self.replica_health.insert(key.as_str(), is_healthy);
    }

    /// Get health status for a specific replica: 1 for healthy, 0 for
    /// unhealthy, 1 when never set.
    pub fn get_replica_health(&self, bucket: &str, replica: &str) -> (r: u8)
        ensures
            r == (if label_value(self@.replica_health, label2(bucket@, replica@)) == Some(false) {
                0u8
            } else {
                1u8
            }),
    {
        let key = make_label2(bucket, replica);
        match self.replica_health.get(key.as_str()) {
            Some(h) => if *h {
                1
            } else {
                0
            },
            None => 1,
        }
    }

    /// Set active replica for a bucket (which replica is currently serving).
    pub fn set_active_replica(&mut self, bucket: &str, replica: &str)
        ensures
            final(self)@ == (MetricsView { active_replica: final(self)@.active_replica, ..old(self)@ }),
            label_value(final(self)@.active_replica, bucket@) matches Some(v) && v@ == replica@,
            forall|other: Seq<char>|
                other != bucket@ ==> label_value(final(self)@.active_replica, other) == label_value(
                    old(self)@.active_replica,
                    other,
                ),
    {
        let v = to_string(replica);
        self.active_replica.insert(bucket, v);
        proof {
            assert forall|other: Seq<char>|
                other != bucket@ implies label_value(self@.active_replica, other) == label_value(
                old(self)@.active_replica,
                other,
            ) by {
                lemma_label_insert(old(self)@.active_replica, bucket@, v, other);
            }
            lemma_label_insert(old(self)@.active_replica, bucket@, v, bucket@);
        }
    }

    /// Get active replica for a bucket, if set.
    pub fn get_active_replica(&self, bucket: &str) -> (r: Option<String>)
        ensures
            opt_view(r) == match label_value(self@.active_replica, bucket@) {
                Some(v) => Some(v@),
                None => None,
            },
    {
        match self.active_replica.get(bucket) {
            Some(v) => Some(v.clone()),
            None => None,
        }
    }

    /// Record an image processing operation: one more operation, its
    /// duration, its original and processed sizes (and the bytes saved when
    /// the result is smaller), one more use of its output format and of each
    /// transformation, and a cache hit or miss.
    pub fn record_image_processing(
        &mut self,
        duration_us: u64,
        original_size: u64,
        processed_size: u64,
        format: &str,
        transformations: &[&str],
        cache_hit: bool,
    )
        ensures
            final(self)@ == (MetricsView {
                image_processing_total: wrap_inc(old(self)@.image_processing_total),
                image_processing_durations: old(self)@.image_processing_durations.push(duration_us),
                image_bytes_original: vstd::wrapping::u64_specs::wrapping_add(
                    old(self)@.image_bytes_original,
                    original_size,
                ),
                image_bytes_processed: vstd::wrapping::u64_specs::wrapping_add(
                    old(self)@.image_bytes_processed,
                    processed_size,
                ),
                image_bytes_saved: if original_size > processed_size {
                    vstd::wrapping::u64_specs::wrapping_add(
                        old(self)@.image_bytes_saved,
                        (original_size - processed_size) as u64,
                    )
                } else {
                    old(self)@.image_bytes_saved
                },
                image_formats: label_increment(old(self)@.image_formats, format@),
                image_transformations: increment_all(
                    old(self)@.image_transformations,
                    transformations@.map_values(|t: &str| t@),
                ),
                image_cache_hits: if cache_hit {
                    wrap_inc(old(self)@.image_cache_hits)
                } else {
                    old(self)@.image_cache_hits
                },
                image_cache_misses: if cache_hit {
                    old(self)@.image_cache_misses
                } else {
                    wrap_inc(old(self)@.image_cache_misses)
                },
                ..old(self)@
            }),
            label_count(old(self)@.image_formats, format@) < u64::MAX ==> label_count(
                final(self)@.image_formats,
                format@,
            ) == label_count(old(self)@.image_formats, format@) + 1,
            forall|k: Seq<char>|
                k != format@ ==> #[trigger] label_count(final(self)@.image_formats, k) == label_count(
                    old(self)@.image_formats,
                    k,
                ),
            forall|k: Seq<char>|
                label_count(old(self)@.image_transformations, k) + occurrences(
                    transformations@.map_values(|t: &str| t@),
                    k,
                ) <= u64::MAX ==> #[trigger] label_count(final(self)@.image_transformations, k)
                    == label_count(old(self)@.image_transformations, k) + occurrences(
                    transformations@.map_values(|t: &str| t@),
                    k,
                ),
    {
        proof {
            use_type_invariant(&self.image_formats);
            use_type_invariant(&self.image_transformations);
        }
        self.image_processing_total = self.image_processing_total.wrapping_add(1);
        self.image_processing_durations.push(duration_us);
        self.image_bytes_original = self.image_bytes_original.wrapping_add(original_size);
        self.image_bytes_processed = self.image_bytes_processed.wrapping_add(processed_size);
        if original_size > processed_size {
            self.image_bytes_saved = self.image_bytes_saved.wrapping_add(original_size - processed_size);
        }
        self.image_formats.increment(format);
        let ghost names = transformations@.map_values(|t: &str| t@);
        let ghost pre = self@;
        let mut i: usize = 0;
        while i < transformations.len()
            invariant
                i <= transformations.len(),
                self@ == (MetricsView { image_transformations: self@.image_transformations, ..pre }),
                names == transformations@.map_values(|t: &str| t@),
                self.image_transformations@ == increment_all(
                    old(self)@.image_transformations,
                    names.take(i as int),
                ),
            decreases transformations.len() - i,
        {
            assert(names.take(i + 1).drop_last() == names.take(i as int));
            self.image_transformations.increment(transformations[i]);
            i = i + 1;
        }
        assert(names.take(transformations.len() as int) == names);
        proof {
            let f = old(self)@.image_formats;
            let t = old(self)@.image_transformations;
            lemma_label_insert(f, format@, wrap_inc(label_count(f, format@)), format@);
            assert forall|k: Seq<char>| k != format@ implies #[trigger] label_count(self@.image_formats, k)
                == label_count(f, k) by {
                lemma_label_insert(f, format@, wrap_inc(label_count(f, format@)), k);
            }
            assert forall|k: Seq<char>|
                label_count(t, k) + occurrences(names, k) <= u64::MAX implies #[trigger] label_count(
                self@.image_transformations,
                k,
            ) == label_count(t, k) + occurrences(names, k) by {
                law_increment_all_counts(t, names, k);
            }
        }
        if cache_hit {
            self.image_cache_hits = self.image_cache_hits.wrapping_add(1);
        } else {
            self.image_cache_misses = self.image_cache_misses.wrapping_add(1);
        }
    }

    /// Record an image processing error.
    pub fn record_image_error(&mut self, error_type: &str)
        ensures
            final(self)@ == (MetricsView {
                image_processing_errors: wrap_inc(old(self)@.image_processing_errors),
                image_errors_by_type: label_increment(old(self)@.image_errors_by_type, error_type@),
                ..old(self)@
            }),
    {
        self.image_processing_errors = self.image_processing_errors.wrapping_add(1);
        self.image_errors_by_type.increment(error_type);
    }
}

impl Default for Metrics {
    fn default() -> (r: Self)
        ensures
            r@ == metrics_empty(),
    {
        Metrics::new()
    }
}

/// The counts after counting each label of `names` once, in order.
pub open spec fn increment_all(s: Seq<(Seq<char>, u64)>, names: Seq<Seq<char>>) -> Seq<(Seq<char>, u64)>
    decreases names.len(),
{
    if names.len() == 0 {
        s
    } else {
        label_increment(increment_all(s, names.drop_last()), names.last())
    }
}

/// How many times `k` occurs in `names`.
pub open spec fn occurrences(names: Seq<Seq<char>>, k: Seq<char>) -> nat
    decreases names.len(),
{
    if names.len() == 0 {
        0
    } else {
        occurrences(names.drop_last(), k) + if names.last() == k {
            1nat
        } else {
            0nat
        }
    }
}

/// Counting a list of names keeps the labels unique, and adds to the
/// count of each name the number of times it occurs in the list (when no
/// count overflows).
pub proof fn law_increment_all_counts(s: Seq<(Seq<char>, u64)>, names: Seq<Seq<char>>, k: Seq<char>)
    requires
        labels_unique(s),
        label_count(s, k) + occurrences(names, k) <= u64::MAX,
    ensures
        labels_unique(increment_all(s, names)),
        label_count(increment_all(s, names), k) == label_count(s, k) + occurrences(names, k),
    decreases names.len(),
{
    if names.len() > 0 {
        let rest = names.drop_last();
        let last = names.last();
        law_increment_all_counts(s, rest, k);
        let t = increment_all(s, rest);
        lemma_label_insert(t, last, wrap_inc(label_count(t, last)), k);
        if last == k {
            assert(label_count(t, k) < u64::MAX);
            assert(wrap_inc(label_count(t, k)) == label_count(t, k) + 1);
        }
    }
}

/// The characters and values of a list of entries.
pub open spec fn entries_view<V>(s: Seq<(String, V)>) -> Seq<(Seq<char>, V)> {
    s.map_values(|e: (String, V)| (e.0@, e.1))
}

/// A copy of a sample list.
fn copy_samples(v: &Vec<u64>) -> (r: Vec<u64>)
    ensures
        r@ == v@,
{
    let mut r: Vec<u64> = Vec::new();
    let mut i: usize = 0;
    while i < v.len()
        invariant
            i <= v.len(),
            r@ == v@.take(i as int),
        decreases v.len() - i,
    {
        assert(v@.take(i + 1) == v@.take(i as int).push(v@[i as int]));
        r.push(v[i]);
        i = i + 1;
    }
    assert(v@.take(v@.len() as int) == v@);
    r
}

/// A copy of the entries of a counter map.
fn copy_counts(m: &LabelMap<u64>) -> (r: Vec<(String, u64)>)
    ensures
        entries_view(r@) == m@,
{
    let mut r: Vec<(String, u64)> = Vec::new();
    let mut i: usize = 0;
    while i < m.len()
        invariant
            i <= m@.len(),
            entries_view(r@) == m@.take(i as int),
        decreases m@.len() - i,
    {
        let (k, v) = m.entry(i);
        let ks = to_string(k);
        let ghost before = r@;
        r.push((ks, *v));
        assert(m@.take(i + 1) == m@.take(i as int).push(m@[i as int]));
        assert(r@ == before.push((ks, *v)));
        assert(entries_view(r@) =~= entries_view(before).push((ks@, *v)));
        assert(entries_view(r@) =~= m@.take(i + 1));
        i = i + 1;
    }
    assert(m@.take(m@.len() as int) == m@);
    r
}

/// A copy of the entries of a flag map.
fn copy_flags(m: &LabelMap<bool>) -> (r: Vec<(String, bool)>)
    ensures
        entries_view(r@) == m@,
{
    let mut r: Vec<(String, bool)> = Vec::new();
    let mut i: usize = 0;
    while i < m.len()
        invariant
            i <= m@.len(),
            entries_view(r@) == m@.take(i as int),
        decreases m@.len() - i,
    {
        let (k, v) = m.entry(i);
        let ks = to_string(k);
        let ghost before = r@;
        r.push((ks, *v));
        assert(m@.take(i + 1) == m@.take(i as int).push(m@[i as int]));
        assert(r@ == before.push((ks, *v)));
        assert(entries_view(r@) =~= entries_view(before).push((ks@, *v)));
        assert(entries_view(r@) =~= m@.take(i + 1));
        i = i + 1;
    }
    assert(m@.take(m@.len() as int) == m@);
    r
}

/// The sample list of a label after a sample was appended to it.
proof fn samples_pushed(
    before: Seq<(Seq<char>, Vec<u64>)>,
    after: Seq<(Seq<char>, Vec<u64>)>,
    key: Seq<char>,
    sample: u64,
)
    requires
        crate::labels::labels_unique(before),
        crate::labels::sample_appended(before, after, key, sample),
    ensures
        label_value(after, key) matches Some(v) && v@ == match label_value(before, key) {
            Some(w) => w@.push(sample),
            None => seq![sample],
        },
{
    lemma_label_index(before, key);
    lemma_label_index(after, key);
    match label_index(before, key) {
        Some(i) => {
            if let Some(k) = label_index(after, key) {
                if k != i {
                    if k < i {
                        assert(after[k] == before[k]);
                    }
                }
            }
        },
        None => {
            if let Some(k) = label_index(after, key) {
                if k < before.len() {
                    assert(after[k] == before[k]);
                }
            }
        },
    }
}

/// Law: counting an occurrence of a label raises that label's count by one
/// (wrapping at `u64::MAX`) and leaves every other label's count alone.
pub proof fn law_increment_then_count(s: Seq<(Seq<char>, u64)>, k: Seq<char>, other: Seq<char>)
    requires
        crate::labels::labels_unique(s),
    ensures
        label_count(label_increment(s, k), k) == wrap_inc(label_count(s, k)),
        other != k ==> label_count(label_increment(s, k), other) == label_count(s, other),
        crate::labels::labels_unique(label_increment(s, k)),
{
    lemma_label_insert(s, k, wrap_inc(label_count(s, k)), other);
}

/// Law: a connection opened and then closed leaves the active connection
/// count where it was.
pub proof fn law_connection_open_close(n: u64)
    ensures
        vstd::wrapping::u64_specs::wrapping_sub(wrap_inc(n), 1) == n,
{
}


/// The Prometheus text of a metrics state: the metric blocks of the
/// export in order (see `exposition`), each metric's HELP and TYPE lines
/// followed by its samples; labelled metrics list their entries in the
/// order the labels were first seen.
pub open spec fn prometheus_text(m: MetricsView) -> Seq<char> {
    export_blocks(m, export_block_count())
}

impl Metrics {
    /// Writes block `i` of the export: its `# HELP` and `# TYPE` lines and
    /// its samples.
    #[verifier::rlimit(50)]
    fn emit_block(&self, out: &mut String, i: usize)
        requires
            i < export_block_count(),
        ensures
            final(out)@ == old(out)@ + header(
                i == 0,
                block_name(i as nat),
                block_help(i as nat),
                block_type(i as nat),
            ) + block_samples(self@, i as nat),
    {
        match i {
            0 => {
                emit_header(out, true, "http_requests_total", "Total number of HTTP requests received", "counter");
                emit_scalar(out, "http_requests_total", self.request_count);
            },
            1 => {
                emit_header(out, false, "http_requests_by_status_total", "HTTP requests by status code", "counter");
                emit_labeled(out, "http_requests_by_status_total", "status", &self.status_counts);
            },
            2 => {
                emit_header(out, false, "http_requests_by_bucket_total", "HTTP requests by S3 bucket", "counter");
                emit_labeled(out, "http_requests_by_bucket_total", "bucket", &self.bucket_counts);
            },
            3 => {
                emit_header(out, false, "http_requests_by_method_total", "HTTP requests by method", "counter");
                emit_labeled(out, "http_requests_by_method_total", "method", &self.method_counts);
            },
            4 => {
                emit_header(out, false, "auth_success_total", "Successful authentication attempts", "counter");
                emit_scalar(out, "auth_success_total", self.auth_success);
            },
            5 => {
                emit_header(out, false, "auth_failure_total", "Failed authentication attempts", "counter");
                emit_scalar(out, "auth_failure_total", self.auth_failure);
            },
            6 => {
                emit_header(out, false, "auth_bypassed_total", "Authentication bypassed (public buckets)", "counter");
                emit_scalar(out, "auth_bypassed_total", self.auth_bypassed);
            },
            7 => {
                emit_header(out, false, "s3_operations_total", "S3 operations by type", "counter");
                emit_labeled(out, "s3_operations_total", "operation", &self.s3_operations);
            },
            8 => {
                emit_header(out, false, "s3_errors_total", "S3 errors by error code", "counter");
                emit_labeled(out, "s3_errors_total", "error_code", &self.s3_errors);
            },
            9 => {
                emit_header(out, false, "active_connections", "Current number of active connections", "gauge");
                emit_scalar(out, "active_connections", self.active_connections);
            },
            10 => {
                emit_header(out, false, "bytes_sent_total", "Total bytes sent to clients", "counter");
                emit_scalar(out, "bytes_sent_total", self.bytes_sent);
            },
            11 => {
                emit_header(out, false, "bytes_received_total", "Total bytes received from clients", "counter");
                emit_scalar(out, "bytes_received_total", self.bytes_received);
            },
            12 => {
                emit_header(out, false, "memory_usage_bytes", "Current memory usage (RSS)", "gauge");
                emit_scalar(out, "memory_usage_bytes", self.memory_usage);
            },
            13 => {
                emit_header(out, false, "uptime_seconds", "Proxy uptime in seconds", "gauge");
                emit_scalar(out, "uptime_seconds", self.uptime_seconds);
            },
            14 => {
                emit_header(out, false, "config_reload_success_total", "Successful configuration reloads", "counter");
                emit_scalar(out, "config_reload_success_total", self.reload_success);
            },
            15 => {
                emit_header(out, false, "config_reload_failure_total", "Failed configuration reload attempts", "counter");
                emit_scalar(out, "config_reload_failure_total", self.reload_failure);
            },
            16 => {
                emit_header(out, false, "config_generation", "Current configuration generation number", "gauge");
                emit_scalar(out, "config_generation", self.config_generation);
            },
            17 => {
                emit_header(out, false, "concurrency_limit_rejections_total", "Requests rejected due to concurrency limit (503)", "counter");
                emit_scalar(out, "concurrency_limit_rejections_total", self.concurrency_limit_rejections);
            },
            18 => {
                emit_header(out, false, "rate_limit_exceeded_total", "Requests rejected due to rate limit (429) per bucket", "counter");
                emit_labeled(out, "rate_limit_exceeded_total", "bucket", &self.rate_limit_exceeded);
            },
            19 => {
                emit_header(out, false, "s3_retry_attempts_total", "Total retry attempts per bucket", "counter");
                emit_labeled(out, "s3_retry_attempts_total", "bucket", &self.s3_retry_attempts);
            },
            20 => {
                emit_header(out, false, "s3_retry_success_total", "Successful retries per bucket (eventually succeeded)", "counter");
                emit_labeled(out, "s3_retry_success_total", "bucket", &self.s3_retry_success);
            },
            21 => {
                emit_header(out, false, "s3_retry_exhausted_total", "Retries exhausted per bucket (all attempts failed)", "counter");
                emit_labeled(out, "s3_retry_exhausted_total", "bucket", &self.s3_retry_exhausted);
            },
            22 => {
                emit_header(out, false, "security_payload_too_large_total", "Requests rejected due to payload size exceeding limit (413)", "counter");
                emit_scalar(out, "security_payload_too_large_total", self.security_payload_too_large);
            },
            23 => {
                emit_header(out, false, "security_headers_too_large_total", "Requests rejected due to headers size exceeding limit (431)", "counter");
                emit_scalar(out, "security_headers_too_large_total", self.security_headers_too_large);
            },
            24 => {
                emit_header(out, false, "security_uri_too_long_total", "Requests rejected due to URI length exceeding limit (414)", "counter");
                emit_scalar(out, "security_uri_too_long_total", self.security_uri_too_long);
            },
            25 => {
                emit_header(out, false, "security_path_traversal_blocked_total", "Requests blocked due to path traversal attempt (400)", "counter");
                emit_scalar(out, "security_path_traversal_blocked_total", self.security_path_traversal_blocked);
            },
            26 => {
                emit_header(out, false, "security_sql_injection_blocked_total", "Requests blocked due to SQL injection attempt (400)", "counter");
                emit_scalar(out, "security_sql_injection_blocked_total", self.security_sql_injection_blocked);
            },
            27 => {
                emit_header(out, false, "http_request_duration_seconds", "Request duration in seconds", "summary");
                emit_duration_summary(out, &self.durations);
            },
            28 => {
                emit_header(out, false, "backend_health", "Backend health status per bucket (1=healthy, 0=unhealthy)", "gauge");
                emit_flags(out, "backend_health", "bucket", &self.backend_health);
            },
            29 => {
                emit_header(out, false, "http_requests_by_replica_total", "HTTP requests per replica within bucket", "counter");
                emit_pairs(out, "http_requests_by_replica_total", "bucket", "replica", &self.replica_request_counts);
            },
            30 => {
                emit_header(out, false, "http_errors_by_replica_total", "HTTP errors per replica within bucket", "counter");
                emit_pairs(out, "http_errors_by_replica_total", "bucket", "replica", &self.replica_error_counts);
            },
            31 => {
                emit_header(out, false, "replica_request_duration_seconds", "Request duration per replica in seconds", "summary");
                emit_replica_summaries(out, &self.replica_latencies);
            },
            32 => {
                emit_header(out, false, "replica_failovers_total", "Replica failover events (from → to)", "counter");
                emit_failovers(out, &self.replica_failovers);
            },
            33 => {
                emit_header(out, false, "replica_health", "Replica health status (1=healthy, 0=unhealthy)", "gauge");
                emit_pair_flags(out, "replica_health", "bucket", "replica", &self.replica_health);
            },
            34 => {
                emit_header(out, false, "yatagarasu_cache_hits_total", "Total cache hits", "counter");
                emit_scalar(out, "yatagarasu_cache_hits_total", self.cache_hits);
            },
            35 => {
                emit_header(out, false, "yatagarasu_cache_misses_total", "Total cache misses", "counter");
                emit_scalar(out, "yatagarasu_cache_misses_total", self.cache_misses);
            },
            36 => {
                emit_header(out, false, "yatagarasu_cache_evictions_total", "Total cache evictions", "counter");
                emit_scalar(out, "yatagarasu_cache_evictions_total", self.cache_evictions);
            },
            37 => {
                emit_header(out, false, "yatagarasu_cache_purges_total", "Total cache purge operations", "counter");
                emit_scalar(out, "yatagarasu_cache_purges_total", self.cache_purges);
            },
            38 => {
                emit_header(out, false, "yatagarasu_cache_hits_by_bucket_layer", "Cache hits by bucket and layer", "counter");
                emit_pairs(out, "yatagarasu_cache_hits_by_bucket_layer", "bucket", "layer", &self.cache_hits_by_bucket_layer);
            },
            39 => {
                emit_header(out, false, "yatagarasu_cache_misses_by_bucket_layer", "Cache misses by bucket and layer", "counter");
                emit_pairs(out, "yatagarasu_cache_misses_by_bucket_layer", "bucket", "layer", &self.cache_misses_by_bucket_layer);
            },
            40 => {
                emit_header(out, false, "yatagarasu_cache_evictions_by_layer", "Cache evictions by layer", "counter");
                emit_labeled(out, "yatagarasu_cache_evictions_by_layer", "layer", &self.cache_evictions_by_layer);
            },
            41 => {
                emit_header(out, false, "yatagarasu_cache_size_by_layer", "Cache size in bytes by layer", "gauge");
                emit_labeled(out, "yatagarasu_cache_size_by_layer", "layer", &self.cache_size_by_layer);
            },
            42 => {
                emit_header(out, false, "yatagarasu_cache_items_by_layer", "Cache item count by layer", "gauge");
                emit_labeled(out, "yatagarasu_cache_items_by_layer", "layer", &self.cache_items_by_layer);
            },
            43 => {
                emit_header(out, false, "yatagarasu_cache_sendfile_total", "Total sendfile-eligible cache hits", "counter");
                emit_scalar(out, "yatagarasu_cache_sendfile_total", self.cache_sendfile_count);
            },
            44 => {
                emit_header(out, false, "yatagarasu_cache_sendfile_bytes_total", "Total bytes served via sendfile", "counter");
                emit_scalar(out, "yatagarasu_cache_sendfile_bytes_total", self.cache_sendfile_bytes);
            },
            45 => {
                emit_header(out, false, "yatagarasu_prewarm_tasks_total", "Total prewarm tasks created", "counter");
                emit_scalar(out, "yatagarasu_prewarm_tasks_total", self.prewarm_tasks_total);
            },
            46 => {
                emit_header(out, false, "yatagarasu_prewarm_files_total", "Total files cached by prewarm", "counter");
                emit_scalar(out, "yatagarasu_prewarm_files_total", self.prewarm_files_total);
            },
            47 => {
                emit_header(out, false, "yatagarasu_prewarm_bytes_total", "Total bytes cached by prewarm", "counter");
                emit_scalar(out, "yatagarasu_prewarm_bytes_total", self.prewarm_bytes_total);
            },
            48 => {
                emit_header(out, false, "yatagarasu_prewarm_errors_total", "Total prewarm errors", "counter");
                emit_scalar(out, "yatagarasu_prewarm_errors_total", self.prewarm_errors_total);
            },
            49 => {
                emit_header(out, false, "yatagarasu_prewarm_duration_seconds", "Prewarm task durations", "summary");
                emit_ms_summary(out, "yatagarasu_prewarm_duration_seconds", &self.prewarm_duration_seconds);
            },
            50 => {
                emit_header(out, false, "yatagarasu_image_processing_total", "Total image processing operations", "counter");
                emit_scalar(out, "yatagarasu_image_processing_total", self.image_processing_total);
            },
            51 => {
                emit_header(out, false, "yatagarasu_image_processing_errors_total", "Total image processing errors", "counter");
                emit_scalar(out, "yatagarasu_image_processing_errors_total", self.image_processing_errors);
            },
            52 => {
                emit_header(out, false, "yatagarasu_image_bytes_saved_total", "Total bytes saved by image optimization", "counter");
                emit_scalar(out, "yatagarasu_image_bytes_saved_total", self.image_bytes_saved);
            },
            53 => {
                emit_header(out, false, "yatagarasu_image_bytes_original_total", "Total original image bytes processed", "counter");
                emit_scalar(out, "yatagarasu_image_bytes_original_total", self.image_bytes_original);
            },
            54 => {
                emit_header(out, false, "yatagarasu_image_bytes_processed_total", "Total processed image bytes", "counter");
                emit_scalar(out, "yatagarasu_image_bytes_processed_total", self.image_bytes_processed);
            },
            55 => {
                emit_header(out, false, "yatagarasu_image_cache_hits_total", "Image variant cache hits", "counter");
                emit_scalar(out, "yatagarasu_image_cache_hits_total", self.image_cache_hits);
            },
            56 => {
                emit_header(out, false, "yatagarasu_image_cache_misses_total", "Image variant cache misses", "counter");
                emit_scalar(out, "yatagarasu_image_cache_misses_total", self.image_cache_misses);
            },
            57 => {
                emit_header(out, false, "yatagarasu_image_processing_duration_us", "Image processing duration", "summary");
                emit_ms_summary(out, "yatagarasu_image_processing_duration_us", &self.image_processing_durations);
            },
            58 => {
                emit_header(out, false, "yatagarasu_image_transformations_total", "Image transformations by type", "counter");
                emit_labeled(out, "yatagarasu_image_transformations_total", "type", &self.image_transformations);
            },
            59 => {
                emit_header(out, false, "yatagarasu_image_formats_total", "Image output formats", "counter");
                emit_labeled(out, "yatagarasu_image_formats_total", "format", &self.image_formats);
            },
            _ => {
                emit_header(out, false, "yatagarasu_image_errors_by_type_total", "Image errors by type", "counter");
                emit_labeled(out, "yatagarasu_image_errors_by_type_total", "type", &self.image_errors_by_type);
            },
        }
    }

    /// The metrics in Prometheus text format, as served on `/metrics`: every
    /// metric block in order.
    pub fn export_prometheus(&self) -> (r: String)
        ensures
            r@ == prometheus_text(self@),
    {
        let mut out = String::new();
        let mut i: usize = 0;
        while i < 61
            invariant
                i <= export_block_count(),
                out@ == export_blocks(self@, i as nat),
            decreases 61 - i,
        {
            self.emit_block(&mut out, i);
            i = i + 1;
        }
        out
    }
}

} // verus!
