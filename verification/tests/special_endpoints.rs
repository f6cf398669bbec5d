use yatagarasu::circuit_breaker::CircuitState;
use yatagarasu::config::{BucketConfig, S3Config};
use yatagarasu::metrics::Metrics;
use yatagarasu::proxy::special_endpoints::{
    assess_readiness, bucket_readiness, handle_metrics, BucketReadiness, EndpointResponse,
};
use yatagarasu::replica_set::{ReplicaEntry, ReplicaSet};

fn test_s3_config() -> S3Config {
    S3Config {
        bucket: "test-bucket".to_string(),
        region: "us-east-1".to_string(),
        access_key: "test-key".to_string(),
        secret_key: "test-secret".to_string(),
        ..Default::default()
    }
}

fn test_bucket_config(name: &str) -> BucketConfig {
    BucketConfig {
        name: name.to_string(),
        path_prefix: format!("/{}", name),
        s3: test_s3_config(),
        auth: None,
        authorization: None,
    }
}

fn replica(name: &str, state: CircuitState) -> ReplicaEntry {
    ReplicaEntry {
        name: name.to_string(),
        priority: 1,
        config: test_s3_config(),
        accepts_requests: state != CircuitState::Open,
        circuit_state: state,
    }
}

#[test]
fn readiness_all_replicas_healthy_is_ready() {
    let set = ReplicaSet {
        replicas: vec![replica("primary", CircuitState::Closed), replica("backup", CircuitState::Closed)],
    };
    assert_eq!(bucket_readiness(&set), BucketReadiness::Ready);
}

#[test]
fn readiness_some_replicas_unhealthy_is_degraded() {
    let set = ReplicaSet {
        replicas: vec![replica("primary", CircuitState::Open), replica("backup", CircuitState::Closed)],
    };
    assert_eq!(bucket_readiness(&set), BucketReadiness::Degraded);
}

#[test]
fn readiness_no_healthy_replica_is_unavailable() {
    let set = ReplicaSet {
        replicas: vec![replica("primary", CircuitState::Open), replica("backup", CircuitState::HalfOpen)],
    };
    assert_eq!(bucket_readiness(&set), BucketReadiness::Unavailable);
}

#[test]
fn readiness_report_mixed_buckets() {
    let buckets = vec![test_bucket_config("products"), test_bucket_config("images"), test_bucket_config("docs")];
    let sets = vec![
        ("products".to_string(), ReplicaSet { replicas: vec![replica("primary", CircuitState::Closed)] }),
        ("images".to_string(), ReplicaSet { replicas: vec![replica("primary", CircuitState::Open)] }),
    ];
    let mut metrics = Metrics::new();
    let report = assess_readiness(&buckets, &sets, &mut metrics);
    assert_eq!(report.status_code, 503);
    assert!(!report.all_healthy);
    assert_eq!(report.buckets.len(), 3);
    assert_eq!(report.buckets[0].status, BucketReadiness::Ready);
    assert_eq!(report.buckets[1].status, BucketReadiness::Unavailable);
    assert_eq!(report.buckets[2].status, BucketReadiness::Unavailable);
    assert!(report.buckets[2].replicas.is_none());
    assert_eq!(
        report.buckets[0].replicas,
        Some(vec![("primary".to_string(), true)])
    );
    assert_eq!(
        metrics.get_backend_health(),
        vec![("products".to_string(), true), ("images".to_string(), false)]
    );
}

#[test]
fn readiness_report_no_buckets_is_ready() {
    let mut metrics = Metrics::new();
    let report = assess_readiness(&Vec::new(), &Vec::new(), &mut metrics);
    assert_eq!(report.status_code, 200);
    assert!(report.all_healthy);
}

#[test]
fn test_endpoint_response_json() {
    let response = EndpointResponse::json(200, r#"{"status":"ok"}"#.to_string());
    assert_eq!(response.status, 200);
    assert_eq!(response.content_type, "application/json");
    assert_eq!(response.body, r#"{"status":"ok"}"#);
}

#[test]
fn test_endpoint_response_prometheus() {
    let response = EndpointResponse::prometheus("metric_name 42".to_string());
    assert_eq!(response.status, 200);
    assert_eq!(response.content_type, "text/plain; version=0.0.4");
    assert_eq!(response.body, "metric_name 42");
}


#[test]
fn test_handle_metrics() {
    let metrics = Metrics::new();
    let circuit_breaker_metrics = "cb_state{bucket=\"test\"} 0\n".to_string();

    let response = handle_metrics(&metrics, circuit_breaker_metrics);

    assert_eq!(response.status, 200);
    assert_eq!(response.content_type, "text/plain; version=0.0.4");
    assert!(response.body.contains("cb_state"));
}

#[test]
fn test_special_endpoints_module_exists() {
    // Verify the module exports the expected types and functions
    let _ = EndpointResponse::json(200, String::new());
    let _ = handle_metrics as fn(&Metrics, String) -> EndpointResponse;
}

// ========== handle_ready tests ==========
