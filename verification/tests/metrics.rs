use yatagarasu::metrics::Metrics;


#[test]
fn test_can_create_metrics_struct() {
    // Test: Can create Metrics struct to track counters and histograms
    let mut metrics = Metrics::new();

    // Verify metrics struct was created successfully
    assert!(metrics.is_valid());
}

#[test]
fn test_metrics_has_increment_request_count_method() {
    // Test: Metrics struct has increment_request_count() method
    let mut metrics = Metrics::new();

    // Should be able to increment request count
    metrics.increment_request_count();
}



// Request count metrics tests
#[test]
fn test_track_total_http_requests_received() {
    // Test: Track total HTTP requests received
    let mut metrics = Metrics::new();

    // Initially zero requests
    assert_eq!(metrics.get_request_count(), 0);

    // Increment request count
    metrics.increment_request_count();
    assert_eq!(metrics.get_request_count(), 1);

    // Increment again
    metrics.increment_request_count();
    assert_eq!(metrics.get_request_count(), 2);
}

#[test]
fn test_track_requests_by_status_code() {
    // Test: Track requests by status code (2xx, 3xx, 4xx, 5xx)
    let mut metrics = Metrics::new();

    // Track 2xx success responses
    metrics.increment_status_count(200);
    assert_eq!(metrics.get_status_count(200), 1);

    // Track 404 not found
    metrics.increment_status_count(404);
    assert_eq!(metrics.get_status_count(404), 1);

    // Track 500 internal error
    metrics.increment_status_count(500);
    assert_eq!(metrics.get_status_count(500), 1);

    // Multiple requests with same status
    metrics.increment_status_count(200);
    assert_eq!(metrics.get_status_count(200), 2);
}

#[test]
fn test_track_requests_by_bucket_name() {
    // Test: Track requests by bucket name
    let mut metrics = Metrics::new();

    // Track requests to different buckets
    metrics.increment_bucket_count("products");
    assert_eq!(metrics.get_bucket_count("products"), 1);

    metrics.increment_bucket_count("images");
    assert_eq!(metrics.get_bucket_count("images"), 1);

    // Multiple requests to same bucket
    metrics.increment_bucket_count("products");
    assert_eq!(metrics.get_bucket_count("products"), 2);
}

#[test]
fn test_track_requests_by_http_method() {
    // Test: Track requests by HTTP method (GET, HEAD, POST, etc.)
    let mut metrics = Metrics::new();

    // Track different HTTP methods
    metrics.increment_method_count("GET");
    assert_eq!(metrics.get_method_count("GET"), 1);

    metrics.increment_method_count("HEAD");
    assert_eq!(metrics.get_method_count("HEAD"), 1);

    metrics.increment_method_count("POST");
    assert_eq!(metrics.get_method_count("POST"), 1);

    // Multiple GET requests
    metrics.increment_method_count("GET");
    metrics.increment_method_count("GET");
    assert_eq!(metrics.get_method_count("GET"), 3);
}




// Authentication metrics tests
#[test]
fn test_track_jwt_authentication_attempts() {
    // Test: Track JWT authentication attempts (success/failure)
    let mut metrics = Metrics::new();

    // Track successful authentication
    metrics.increment_auth_success();
    assert_eq!(metrics.get_auth_success_count(), 1);

    // Track failed authentication
    metrics.increment_auth_failure();
    assert_eq!(metrics.get_auth_failure_count(), 1);

    // Multiple authentications
    metrics.increment_auth_success();
    metrics.increment_auth_success();
    assert_eq!(metrics.get_auth_success_count(), 3);

    metrics.increment_auth_failure();
    assert_eq!(metrics.get_auth_failure_count(), 2);
}

#[test]
fn test_track_authentication_bypassed() {
    // Test: Track authentication bypassed (public buckets)
    let mut metrics = Metrics::new();

    // Track requests to public buckets (no auth required)
    metrics.increment_auth_bypassed();
    assert_eq!(metrics.get_auth_bypassed_count(), 1);

    // Multiple public bucket requests
    metrics.increment_auth_bypassed();
    metrics.increment_auth_bypassed();
    assert_eq!(metrics.get_auth_bypassed_count(), 3);
}

#[test]
fn test_track_authentication_errors_by_type() {
    // Test: Track authentication errors by type (missing, invalid, expired)
    let mut metrics = Metrics::new();

    // Track different error types
    metrics.increment_auth_error("missing");
    assert_eq!(metrics.get_auth_error_count("missing"), 1);

    metrics.increment_auth_error("invalid");
    assert_eq!(metrics.get_auth_error_count("invalid"), 1);

    metrics.increment_auth_error("expired");
    assert_eq!(metrics.get_auth_error_count("expired"), 1);

    // Multiple errors of same type
    metrics.increment_auth_error("missing");
    metrics.increment_auth_error("missing");
    assert_eq!(metrics.get_auth_error_count("missing"), 3);
}

// S3 operation metrics tests
#[test]
fn test_track_s3_requests_by_operation() {
    // Test: Track S3 requests by operation (GET, HEAD)
    let mut metrics = Metrics::new();

    // Track different S3 operations
    metrics.increment_s3_operation("GET");
    assert_eq!(metrics.get_s3_operation_count("GET"), 1);

    metrics.increment_s3_operation("HEAD");
    assert_eq!(metrics.get_s3_operation_count("HEAD"), 1);

    // Multiple GET requests
    metrics.increment_s3_operation("GET");
    metrics.increment_s3_operation("GET");
    assert_eq!(metrics.get_s3_operation_count("GET"), 3);
}

#[test]
fn test_track_s3_errors_by_error_code() {
    // Test: Track S3 errors by error code (NoSuchKey, AccessDenied, etc.)
    let mut metrics = Metrics::new();

    // Track different S3 error codes
    metrics.increment_s3_error("NoSuchKey");
    assert_eq!(metrics.get_s3_error_count("NoSuchKey"), 1);

    metrics.increment_s3_error("AccessDenied");
    assert_eq!(metrics.get_s3_error_count("AccessDenied"), 1);

    metrics.increment_s3_error("InternalError");
    assert_eq!(metrics.get_s3_error_count("InternalError"), 1);

    // Multiple errors of same type
    metrics.increment_s3_error("NoSuchKey");
    metrics.increment_s3_error("NoSuchKey");
    assert_eq!(metrics.get_s3_error_count("NoSuchKey"), 3);
}


// System metrics tests
#[test]
fn test_track_active_connections_count() {
    // Test: Track active connections count
    let mut metrics = Metrics::new();

    // Start with zero connections
    assert_eq!(metrics.get_active_connections(), 0);

    // Increment connections (new client connected)
    metrics.increment_active_connections();
    assert_eq!(metrics.get_active_connections(), 1);

    metrics.increment_active_connections();
    assert_eq!(metrics.get_active_connections(), 2);

    // Decrement connections (client disconnected)
    metrics.decrement_active_connections();
    assert_eq!(metrics.get_active_connections(), 1);

    metrics.decrement_active_connections();
    assert_eq!(metrics.get_active_connections(), 0);
}

#[test]
fn test_track_bytes_sent_received() {
    // Test: Track bytes sent/received
    let mut metrics = Metrics::new();

    // Start with zero bytes
    assert_eq!(metrics.get_bytes_sent(), 0);
    assert_eq!(metrics.get_bytes_received(), 0);

    // Track bytes sent (response to client)
    metrics.add_bytes_sent(1024); // 1KB
    assert_eq!(metrics.get_bytes_sent(), 1024);

    metrics.add_bytes_sent(2048); // 2KB
    assert_eq!(metrics.get_bytes_sent(), 3072); // 3KB total

    // Track bytes received (request from client)
    metrics.add_bytes_received(512); // 512 bytes
    assert_eq!(metrics.get_bytes_received(), 512);

    metrics.add_bytes_received(256); // 256 bytes
    assert_eq!(metrics.get_bytes_received(), 768); // 768 bytes total
}

#[test]
fn test_track_memory_usage() {
    // Test: Track memory usage (RSS)
    let mut metrics = Metrics::new();

    // Update memory usage (in bytes)
    metrics.update_memory_usage(1024 * 1024 * 100); // 100 MB
    assert_eq!(metrics.get_memory_usage(), 1024 * 1024 * 100);

    // Memory usage can increase
    metrics.update_memory_usage(1024 * 1024 * 150); // 150 MB
    assert_eq!(metrics.get_memory_usage(), 1024 * 1024 * 150);

    // Memory usage can decrease (after GC)
    metrics.update_memory_usage(1024 * 1024 * 80); // 80 MB
    assert_eq!(metrics.get_memory_usage(), 1024 * 1024 * 80);
}

#[test]
fn test_track_uptime() {
    // Test: Track uptime (seconds since start)
    let mut metrics = Metrics::new();

    // Uptime starts at 0
    assert_eq!(metrics.get_uptime_seconds(), 0);

    // Update uptime
    metrics.update_uptime(60); // 1 minute
    assert_eq!(metrics.get_uptime_seconds(), 60);

    metrics.update_uptime(3600); // 1 hour
    assert_eq!(metrics.get_uptime_seconds(), 3600);

    metrics.update_uptime(86400); // 1 day
    assert_eq!(metrics.get_uptime_seconds(), 86400);
}

// /metrics endpoint tests
#[test]
fn test_export_prometheus_format() {
    // Test: export_prometheus() returns valid Prometheus text format
    let mut metrics = Metrics::new();

    // Add some sample data
    metrics.increment_request_count();
    metrics.increment_status_count(200);
    metrics.increment_bucket_count("products");

    let output = metrics.export_prometheus();

    // Should contain HELP and TYPE annotations
    assert!(output.contains("# HELP http_requests_total"));
    assert!(output.contains("# TYPE http_requests_total counter"));

    // Should contain actual metric values
    assert!(output.contains("http_requests_total 1"));
    assert!(output.contains("http_requests_by_status_total{status=\"200\"} 1"));
    assert!(output.contains("http_requests_by_bucket_total{bucket=\"products\"} 1"));
}

#[test]
fn test_export_includes_all_metric_types() {
    // Test: Response includes all tracked metrics
    let mut metrics = Metrics::new();

    // Populate various metrics
    metrics.increment_request_count();
    metrics.increment_auth_success();
    metrics.increment_s3_operation("GET");
    metrics.increment_active_connections();
    metrics.add_bytes_sent(1024);

    let output = metrics.export_prometheus();

    // Verify all metric categories are present
    assert!(output.contains("http_requests_total"));
    assert!(output.contains("auth_success_total"));
    assert!(output.contains("s3_operations_total"));
    assert!(output.contains("active_connections"));
    assert!(output.contains("bytes_sent_total"));
}

#[test]
fn test_metric_names_follow_prometheus_conventions() {
    // Test: Metric names follow Prometheus naming conventions (snake_case, _total suffix)
    let mut metrics = Metrics::new();
    let output = metrics.export_prometheus();

    // Counter metrics should have _total suffix
    assert!(output.contains("http_requests_total"));
    assert!(output.contains("auth_success_total"));
    assert!(output.contains("s3_operations_total"));
    assert!(output.contains("bytes_sent_total"));

    // Gauge metrics should NOT have _total suffix
    assert!(output.contains("active_connections "));
    assert!(output.contains("memory_usage_bytes "));
    assert!(output.contains("uptime_seconds "));

    // All metric names should be snake_case (no camelCase, PascalCase, etc.)
    // The output should not contain invalid metric name characters
    assert!(!output.contains("httpRequestsTotal")); // camelCase - bad
    assert!(!output.contains("HttpRequestsTotal")); // PascalCase - bad
}

#[test]
fn test_metrics_include_help_and_type_annotations() {
    // Test: Metrics include help text and type annotations
    let mut metrics = Metrics::new();
    let output = metrics.export_prometheus();

    // Every metric should have HELP and TYPE
    // Check a sample of metrics
    assert!(
        output.contains("# HELP http_requests_total Total number of HTTP requests received")
    );
    assert!(output.contains("# TYPE http_requests_total counter"));

    assert!(output.contains("# HELP active_connections Current number of active connections"));
    assert!(output.contains("# TYPE active_connections gauge"));

    assert!(output.contains("# HELP s3_operations_total S3 operations by type"));
    assert!(output.contains("# TYPE s3_operations_total counter"));

    // Count HELP lines (should have many)
    let help_count = output.matches("# HELP").count();
    assert!(help_count >= 10, "Should have at least 10 HELP annotations");

    // Count TYPE lines (should match HELP count)
    let type_count = output.matches("# TYPE").count();
    assert_eq!(
        help_count, type_count,
        "Every HELP should have matching TYPE"
    );
}

#[test]
fn test_track_successful_config_reloads() {
    // Test: Track successful config reload attempts
    let mut metrics = Metrics::new();

    // Start with zero successful reloads
    assert_eq!(metrics.get_reload_success_count(), 0);

    // Increment successful reload count
    metrics.increment_reload_success();
    assert_eq!(metrics.get_reload_success_count(), 1);

    // Multiple successful reloads
    metrics.increment_reload_success();
    metrics.increment_reload_success();
    assert_eq!(metrics.get_reload_success_count(), 3);
}

#[test]
fn test_track_failed_config_reloads() {
    // Test: Track failed config reload attempts
    let mut metrics = Metrics::new();

    // Start with zero failed reloads
    assert_eq!(metrics.get_reload_failure_count(), 0);

    // Increment failed reload count
    metrics.increment_reload_failure();
    assert_eq!(metrics.get_reload_failure_count(), 1);

    // Multiple failed reloads
    metrics.increment_reload_failure();
    metrics.increment_reload_failure();
    assert_eq!(metrics.get_reload_failure_count(), 3);
}

#[test]
fn test_track_config_generation() {
    // Test: Track current config generation number
    let mut metrics = Metrics::new();

    // Start with zero (initial generation)
    assert_eq!(metrics.get_config_generation(), 0);

    // Set config generation
    metrics.set_config_generation(1);
    assert_eq!(metrics.get_config_generation(), 1);

    // Update to new generation
    metrics.set_config_generation(5);
    assert_eq!(metrics.get_config_generation(), 5);

    // Generation can increase by any amount
    metrics.set_config_generation(42);
    assert_eq!(metrics.get_config_generation(), 42);
}

#[test]
fn test_export_prometheus_performance() {
    // Test: Response time < 50ms even under load (simulated with many metrics)
    let mut metrics = Metrics::new();

    // Populate with many metrics
    for i in 0..100 {
        metrics.increment_status_count(200 + (i % 100) as u16);
        metrics.increment_bucket_count(&format!("bucket{}", i));
        metrics.increment_method_count("GET");
        metrics.increment_s3_operation("GET");
    }

    // Time the export
    let start = std::time::Instant::now();
    let output = metrics.export_prometheus();
    let elapsed = start.elapsed();

    // Should be fast (< 50ms even with 100+ metrics)
    assert!(
        elapsed.as_millis() < 50,
        "Export took {}ms, should be < 50ms",
        elapsed.as_millis()
    );

    // Output should still be valid
    assert!(output.contains("# HELP"));
    assert!(output.contains("# TYPE"));
}

// Per-Replica Metrics Tests
#[test]
fn test_track_request_count_per_replica() {
    // Test: Request count per replica
    let mut metrics = Metrics::new();

    // Track requests to different replicas within same bucket
    metrics.increment_replica_request_count("products", "primary");
    assert_eq!(metrics.get_replica_request_count("products", "primary"), 1);

    metrics.increment_replica_request_count("products", "replica-eu");
    assert_eq!(
        metrics.get_replica_request_count("products", "replica-eu"),
        1
    );

    // Multiple requests to same replica
    metrics.increment_replica_request_count("products", "primary");
    metrics.increment_replica_request_count("products", "primary");
    assert_eq!(metrics.get_replica_request_count("products", "primary"), 3);

    // Different bucket, same replica name
    metrics.increment_replica_request_count("media", "primary");
    assert_eq!(metrics.get_replica_request_count("media", "primary"), 1);

    // Original primary count should be unchanged
    assert_eq!(metrics.get_replica_request_count("products", "primary"), 3);
}

#[test]
fn test_track_error_count_per_replica() {
    // Test: Error count per replica
    let mut metrics = Metrics::new();

    // Track errors from different replicas within same bucket
    metrics.increment_replica_error_count("products", "primary");
    assert_eq!(metrics.get_replica_error_count("products", "primary"), 1);

    metrics.increment_replica_error_count("products", "replica-eu");
    assert_eq!(metrics.get_replica_error_count("products", "replica-eu"), 1);

    // Multiple errors from same replica
    metrics.increment_replica_error_count("products", "primary");
    metrics.increment_replica_error_count("products", "primary");
    assert_eq!(metrics.get_replica_error_count("products", "primary"), 3);

    // Different bucket, same replica name
    metrics.increment_replica_error_count("media", "primary");
    assert_eq!(metrics.get_replica_error_count("media", "primary"), 1);

    // Original primary error count should be unchanged
    assert_eq!(metrics.get_replica_error_count("products", "primary"), 3);

    // Verify error count is independent from request count
    metrics.increment_replica_request_count("products", "primary");
    assert_eq!(metrics.get_replica_request_count("products", "primary"), 1);
    assert_eq!(
        metrics.get_replica_error_count("products", "primary"),
        3,
        "Error count should be independent from request count"
    );
}


#[test]
fn test_track_failover_event_counter() {
    // Test: Failover event counter (from → to)
    let mut metrics = Metrics::new();

    // Track failover events from primary to replica-eu
    metrics.increment_replica_failover("products", "primary", "replica-eu");
    assert_eq!(
        metrics.get_replica_failover_count("products", "primary", "replica-eu"),
        1,
        "Should track failover from primary to replica-eu"
    );

    // Multiple failovers on same path
    metrics.increment_replica_failover("products", "primary", "replica-eu");
    metrics.increment_replica_failover("products", "primary", "replica-eu");
    assert_eq!(
        metrics.get_replica_failover_count("products", "primary", "replica-eu"),
        3,
        "Should increment failover count on same path"
    );

    // Different failover path: replica-eu → replica-ap
    metrics.increment_replica_failover("products", "replica-eu", "replica-ap");
    assert_eq!(
        metrics.get_replica_failover_count("products", "replica-eu", "replica-ap"),
        1,
        "Should track different failover path independently"
    );

    // Verify original path count unchanged
    assert_eq!(
        metrics.get_replica_failover_count("products", "primary", "replica-eu"),
        3,
        "Original failover path count should be unchanged"
    );

    // Different bucket, same replica names (isolated failovers)
    metrics.increment_replica_failover("media", "primary", "replica-eu");
    assert_eq!(
        metrics.get_replica_failover_count("media", "primary", "replica-eu"),
        1,
        "Media bucket failovers should be isolated from products"
    );

    // Verify products bucket count unchanged
    assert_eq!(
        metrics.get_replica_failover_count("products", "primary", "replica-eu"),
        3,
        "Products bucket failover count should be unchanged"
    );
}

#[test]
fn test_track_replica_health_gauge() {
    // Test: Replica health gauge (1=healthy, 0=unhealthy)
    let mut metrics = Metrics::new();

    // Set replica health status
    metrics.set_replica_health("products", "primary", true); // healthy
    assert_eq!(
        metrics.get_replica_health("products", "primary"),
        1,
        "Healthy replica should return 1"
    );

    metrics.set_replica_health("products", "replica-eu", false); // unhealthy
    assert_eq!(
        metrics.get_replica_health("products", "replica-eu"),
        0,
        "Unhealthy replica should return 0"
    );

    // Update health status
    metrics.set_replica_health("products", "primary", false); // now unhealthy
    assert_eq!(
        metrics.get_replica_health("products", "primary"),
        0,
        "Updated health status should reflect as unhealthy"
    );

    metrics.set_replica_health("products", "replica-eu", true); // now healthy
    assert_eq!(
        metrics.get_replica_health("products", "replica-eu"),
        1,
        "Updated health status should reflect as healthy"
    );

    // Different bucket, same replica name (isolated health status)
    metrics.set_replica_health("media", "primary", true); // healthy
    assert_eq!(
        metrics.get_replica_health("media", "primary"),
        1,
        "Media primary should be healthy"
    );

    // Verify products primary is still unhealthy (isolation)
    assert_eq!(
        metrics.get_replica_health("products", "primary"),
        0,
        "Products primary should still be unhealthy (bucket isolation)"
    );

    // Get health for replica that hasn't been set (default: healthy)
    assert_eq!(
        metrics.get_replica_health("products", "replica-ap"),
        1,
        "Unset replica should default to healthy (1)"
    );
}

#[test]
fn test_track_active_replica_gauge() {
    let mut metrics = Metrics::new();

    // Set active replica for products bucket
    metrics.set_active_replica("products", "primary");
    assert_eq!(
        metrics.get_active_replica("products"),
        Some("primary".to_string()),
        "Should return active replica name"
    );

    // Update active replica (simulating failover)
    metrics.set_active_replica("products", "replica-eu");
    assert_eq!(
        metrics.get_active_replica("products"),
        Some("replica-eu".to_string()),
        "Should return updated active replica after failover"
    );

    // Different bucket, same replica name (isolated active replica)
    metrics.set_active_replica("media", "primary");
    assert_eq!(
        metrics.get_active_replica("media"),
        Some("primary".to_string()),
        "Media bucket should have its own active replica"
    );

    // Verify products bucket still has replica-eu active (isolation)
    assert_eq!(
        metrics.get_active_replica("products"),
        Some("replica-eu".to_string()),
        "Products active replica should be isolated from media"
    );

    // Get active replica for bucket that hasn't been set
    assert_eq!(
        metrics.get_active_replica("images"),
        None,
        "Unset bucket should return None"
    );

    // Update to another replica (second failover)
    metrics.set_active_replica("products", "replica-ap");
    assert_eq!(
        metrics.get_active_replica("products"),
        Some("replica-ap".to_string()),
        "Should track multiple failover updates"
    );
}


// ============================================================================
// OPA Cache Metrics Tests
// ============================================================================

#[test]
fn test_tracks_opa_cache_hits_counter() {
    // Test: Tracks opa_cache_hits counter
    let mut metrics = Metrics::new();

    assert_eq!(metrics.get_opa_cache_hit_count(), 0);

    metrics.increment_opa_cache_hit();
    assert_eq!(metrics.get_opa_cache_hit_count(), 1);

    metrics.increment_opa_cache_hit();
    metrics.increment_opa_cache_hit();
    assert_eq!(metrics.get_opa_cache_hit_count(), 3);
}

#[test]
fn test_tracks_opa_cache_misses_counter() {
    // Test: Tracks opa_cache_misses counter
    let mut metrics = Metrics::new();

    assert_eq!(metrics.get_opa_cache_miss_count(), 0);

    metrics.increment_opa_cache_miss();
    assert_eq!(metrics.get_opa_cache_miss_count(), 1);

    metrics.increment_opa_cache_miss();
    metrics.increment_opa_cache_miss();
    assert_eq!(metrics.get_opa_cache_miss_count(), 3);
}


// ============================================================================
// Cache Metrics Tests
// ============================================================================

#[test]
fn test_tracks_cache_evictions_counter() {
    // Test: yatagarasu_cache_evictions_total tracks evictions
    let mut metrics = Metrics::new();

    assert_eq!(metrics.get_cache_eviction_count(), 0);

    metrics.increment_cache_eviction();
    assert_eq!(metrics.get_cache_eviction_count(), 1);

    metrics.increment_cache_eviction();
    metrics.increment_cache_eviction();
    assert_eq!(metrics.get_cache_eviction_count(), 3);
}

#[test]
fn test_tracks_cache_purges_counter() {
    // Test: yatagarasu_cache_purges_total tracks purge operations
    let mut metrics = Metrics::new();

    assert_eq!(metrics.get_cache_purge_count(), 0);

    metrics.increment_cache_purge();
    assert_eq!(metrics.get_cache_purge_count(), 1);

    metrics.increment_cache_purge();
    metrics.increment_cache_purge();
    assert_eq!(metrics.get_cache_purge_count(), 3);
}

#[test]
fn test_prometheus_export_includes_cache_metrics() {
    // Test: Prometheus export includes all cache metrics
    let mut metrics = Metrics::new();

    // Set some cache metrics
    metrics.increment_cache_hit();
    metrics.increment_cache_hit();
    metrics.increment_cache_miss();
    metrics.increment_cache_eviction();
    metrics.increment_cache_purge();

    let output = metrics.export_prometheus();

    // Verify all cache metrics are present in output
    assert!(
        output.contains("yatagarasu_cache_hits_total 2"),
        "Should export cache hits"
    );
    assert!(
        output.contains("yatagarasu_cache_misses_total 1"),
        "Should export cache misses"
    );
    assert!(
        output.contains("yatagarasu_cache_evictions_total 1"),
        "Should export cache evictions"
    );
    assert!(
        output.contains("yatagarasu_cache_purges_total 1"),
        "Should export cache purges"
    );

    // Verify HELP and TYPE lines are present
    assert!(
        output.contains("# HELP yatagarasu_cache_purges_total"),
        "Should have HELP for cache purges"
    );
    assert!(
        output.contains("# TYPE yatagarasu_cache_purges_total counter"),
        "Should have TYPE for cache purges"
    );
}

#[test]
fn test_sendfile_metrics() {
    // Sendfile metrics
    let mut metrics = Metrics::new();

    // Initially should be zero
    assert_eq!(metrics.get_cache_sendfile_count(), 0);
    assert_eq!(metrics.get_cache_sendfile_bytes(), 0);

    // Increment sendfile count
    metrics.increment_cache_sendfile();
    metrics.increment_cache_sendfile();
    assert_eq!(metrics.get_cache_sendfile_count(), 2);

    // Add sendfile bytes
    metrics.add_cache_sendfile_bytes(1024);
    metrics.add_cache_sendfile_bytes(2048);
    assert_eq!(metrics.get_cache_sendfile_bytes(), 3072);

    // Verify Prometheus export includes sendfile metrics
    let output = metrics.export_prometheus();
    assert!(
        output.contains("yatagarasu_cache_sendfile_total 2"),
        "Should export sendfile count"
    );
    assert!(
        output.contains("yatagarasu_cache_sendfile_bytes_total 3072"),
        "Should export sendfile bytes"
    );
    assert!(
        output.contains("# HELP yatagarasu_cache_sendfile_total"),
        "Should have HELP for sendfile count"
    );
    assert!(
        output.contains("# TYPE yatagarasu_cache_sendfile_total counter"),
        "Should have TYPE for sendfile count"
    );
}

// Image optimization metrics tests

#[test]
fn test_image_processing_metrics_recording() {
    let mut metrics = Metrics::new();

    // Record an image processing operation
    metrics.record_image_processing(
        50_000, // 50ms in microseconds
        100_000,
        50_000,
        "webp",
        &["resize", "format_conversion"],
        false,
    );

    assert_eq!(metrics.get_image_processing_total(), 1);
    assert_eq!(metrics.get_image_bytes_saved(), 50_000);
    assert_eq!(metrics.get_image_cache_hits(), 0);
    assert_eq!(metrics.get_image_cache_misses(), 1);
    assert_eq!(metrics.get_image_transformation_count("resize"), 1);
    assert_eq!(
        metrics.get_image_transformation_count("format_conversion"),
        1
    );
    assert_eq!(metrics.get_image_format_count("webp"), 1);
}

#[test]
fn test_image_processing_cache_hit() {
    let mut metrics = Metrics::new();

    // Record a cache hit
    metrics.record_image_processing(1_000, 100_000, 50_000, "jpeg", &[], true);

    assert_eq!(metrics.get_image_cache_hits(), 1);
    assert_eq!(metrics.get_image_cache_misses(), 0);
}

#[test]
fn test_image_processing_error_recording() {
    let mut metrics = Metrics::new();

    metrics.record_image_error("decode_error");
    metrics.record_image_error("decode_error");
    metrics.record_image_error("encode_error");

    assert_eq!(metrics.get_image_processing_errors(), 3);
    assert_eq!(metrics.get_image_error_count("decode_error"), 2);
    assert_eq!(metrics.get_image_error_count("encode_error"), 1);
}


#[test]
fn test_image_metrics_prometheus_export() {
    let mut metrics = Metrics::new();

    metrics.record_image_processing(50_000, 100_000, 50_000, "webp", &["resize"], false);
    metrics.record_image_error("decode_error");

    let output = metrics.export_prometheus();

    assert!(
        output.contains("yatagarasu_image_processing_total 1"),
        "Should export image processing total"
    );
    assert!(
        output.contains("yatagarasu_image_processing_errors_total 1"),
        "Should export image processing errors"
    );
    assert!(
        output.contains("yatagarasu_image_bytes_saved_total 50000"),
        "Should export bytes saved"
    );
    assert!(
        output.contains("yatagarasu_image_cache_misses_total 1"),
        "Should export cache misses"
    );
    assert!(
        output.contains("yatagarasu_image_transformations_total{type=\"resize\"} 1"),
        "Should export transformations by type"
    );
    assert!(
        output.contains("yatagarasu_image_formats_total{format=\"webp\"} 1"),
        "Should export formats"
    );
    assert!(
        output.contains("yatagarasu_image_errors_by_type_total{type=\"decode_error\"} 1"),
        "Should export errors by type"
    );
}

#[test]
fn test_image_bytes_no_savings() {
    let mut metrics = Metrics::new();

    // Image grew (e.g., converting to lossless format)
    metrics.record_image_processing(10_000, 50_000, 80_000, "png", &[], false);

    // bytes_saved should remain 0 when image grows
    assert_eq!(metrics.get_image_bytes_saved(), 0);
}

#[test]
fn test_image_transformations_count_occurrences() {
    let mut metrics = Metrics::new();
    metrics.record_image_processing(10, 200, 100, "png", &["resize", "crop", "resize"], false);
    metrics.record_image_processing(10, 200, 100, "png", &["resize"], true);
    assert_eq!(metrics.get_image_transformation_count("resize"), 3);
    assert_eq!(metrics.get_image_transformation_count("crop"), 1);
    assert_eq!(metrics.get_image_transformation_count("rotate"), 0);
}
