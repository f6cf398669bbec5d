use std::time::Duration;
use yatagarasu::config::{BucketConfig, S3Config};
use yatagarasu::proxy::upstream::{
    build_s3_request, build_upstream_peer_config, get_s3_credentials, parse_endpoint,
    select_replica, ReplicaSelection, S3Credentials, UpstreamPeerConfig,
};
use yatagarasu::replica_set::ReplicaSet;


fn test_s3_config() -> S3Config {
    S3Config {
        bucket: "test-bucket".to_string(),
        region: "us-east-1".to_string(),
        access_key: "test-access-key".to_string(),
        secret_key: "test-secret-key".to_string(),
        endpoint: None,
        timeout: 30,
        ..Default::default()
    }
}

fn test_minio_config() -> S3Config {
    S3Config {
        bucket: "test-bucket".to_string(),
        region: "us-east-1".to_string(),
        access_key: "minio-access-key".to_string(),
        secret_key: "minio-secret-key".to_string(),
        endpoint: Some("http://localhost:9000".to_string()),
        timeout: 30,
        ..Default::default()
    }
}

#[test]
fn test_upstream_module_exists() {
    let _ = S3Credentials::from_s3_config(&test_s3_config());
    let _ = ReplicaSelection::NotConfigured;
    let _ = UpstreamPeerConfig {
        endpoint: "test".to_string(),
        port: 443,
        use_tls: true,
        connection_timeout: Duration::from_secs(30),
        read_timeout: Duration::from_secs(30),
        write_timeout: Duration::from_secs(30),
    };
}

#[test]
fn test_s3_credentials_from_config() {
    let config = test_s3_config();
    let creds = S3Credentials::from_s3_config(&config);

    assert_eq!(creds.bucket, "test-bucket");
    assert_eq!(creds.region, "us-east-1");
    assert_eq!(creds.access_key, "test-access-key");
    assert!(!creds.is_custom_endpoint());
}

#[test]
fn test_s3_credentials_custom_endpoint() {
    let config = test_minio_config();
    let creds = S3Credentials::from_s3_config(&config);

    assert!(creds.is_custom_endpoint());
    assert_eq!(creds.endpoint, Some("http://localhost:9000".to_string()));
}

#[test]
fn test_host_for_signing_aws() {
    let creds = S3Credentials::from_s3_config(&test_s3_config());
    let host = creds.host_for_signing();

    assert_eq!(host, "test-bucket.s3.us-east-1.amazonaws.com");
}

#[test]
fn test_host_for_signing_minio() {
    let creds = S3Credentials::from_s3_config(&test_minio_config());
    let host = creds.host_for_signing();

    // Should be hostname WITHOUT port
    assert_eq!(host, "localhost");
}

#[test]
fn test_uri_path_aws() {
    let creds = S3Credentials::from_s3_config(&test_s3_config());
    let uri = creds.uri_path("path/to/file.jpg");

    // AWS uses virtual-hosted style: /key
    assert_eq!(uri, "/path/to/file.jpg");
}

#[test]
fn test_uri_path_minio() {
    let creds = S3Credentials::from_s3_config(&test_minio_config());
    let uri = creds.uri_path("path/to/file.jpg");

    // MinIO uses path-style: /bucket/key
    assert_eq!(uri, "/test-bucket/path/to/file.jpg");
}

#[test]
fn test_build_s3_request_get() {
    let creds = S3Credentials::from_s3_config(&test_s3_config());
    let request = build_s3_request(&creds, "file.txt", "GET");

    assert_eq!(request.method, "GET");
    assert_eq!(request.bucket, "test-bucket");
    assert_eq!(request.key, "file.txt");
}

#[test]
fn test_build_s3_request_head() {
    let creds = S3Credentials::from_s3_config(&test_s3_config());
    let request = build_s3_request(&creds, "file.txt", "HEAD");

    assert_eq!(request.method, "HEAD");
}



#[test]
fn test_parse_endpoint_aws() {
    let (host, port, tls) = parse_endpoint(None, "my-bucket", "eu-west-1");

    assert_eq!(host, "my-bucket.s3.eu-west-1.amazonaws.com");
    assert_eq!(port, 443);
    assert!(tls);
}

#[test]
fn test_parse_endpoint_minio_http() {
    let (host, port, tls) =
        parse_endpoint(Some("http://minio.local:9000"), "bucket", "us-east-1");

    assert_eq!(host, "minio.local");
    assert_eq!(port, 9000);
    assert!(!tls);
}

#[test]
fn test_parse_endpoint_minio_https() {
    let (host, port, tls) =
        parse_endpoint(Some("https://minio.local:9001"), "bucket", "us-east-1");

    assert_eq!(host, "minio.local");
    assert_eq!(port, 9001);
    assert!(tls);
}

#[test]
fn test_build_upstream_peer_config() {
    let creds = S3Credentials::from_s3_config(&test_s3_config());
    let config = build_upstream_peer_config(&creds);

    assert_eq!(config.endpoint, "test-bucket.s3.us-east-1.amazonaws.com");
    assert_eq!(config.port, 443);
    assert!(config.use_tls);
    assert_eq!(config.connection_timeout, Duration::from_secs(30));
}

#[test]
fn test_build_upstream_peer_config_minio() {
    let creds = S3Credentials::from_s3_config(&test_minio_config());
    let config = build_upstream_peer_config(&creds);

    assert_eq!(config.endpoint, "localhost");
    assert_eq!(config.port, 9000);
    assert!(!config.use_tls);
}

#[test]
fn test_select_replica_not_configured() {
    let replica_sets: Vec<(String, ReplicaSet)> = Vec::new();
    let result = select_replica("unknown-bucket", &replica_sets);

    assert!(matches!(result, ReplicaSelection::NotConfigured));
}

#[test]
fn test_get_s3_credentials_fallback() {
    let bucket_config = BucketConfig {
        name: "test".to_string(),
        path_prefix: "/test".to_string(),
        s3: test_s3_config(),
        auth: None,
        authorization: None,
    };
    let replica_sets: Vec<(String, ReplicaSet)> = Vec::new();

    let creds = get_s3_credentials(&bucket_config, &replica_sets, None);

    assert_eq!(creds.bucket, "test-bucket");
    assert_eq!(creds.access_key, "test-access-key");
}

// ========== Edge case tests for malformed endpoints ==========

#[test]
fn test_host_for_signing_empty_host_defaults_to_localhost() {
    // Malformed URL like "http://:9000" should default to "localhost"
    let creds = S3Credentials {
        bucket: "test".to_string(),
        region: "us-east-1".to_string(),
        access_key: "key".to_string(),
        secret_key: "secret".to_string(),
        endpoint: Some("http://:9000".to_string()),
        timeout: 30,
    };

    assert_eq!(creds.host_for_signing(), "localhost");
}

#[test]
fn test_host_for_signing_empty_endpoint_defaults_to_localhost() {
    // Completely empty endpoint after scheme should default to "localhost"
    let creds = S3Credentials {
        bucket: "test".to_string(),
        region: "us-east-1".to_string(),
        access_key: "key".to_string(),
        secret_key: "secret".to_string(),
        endpoint: Some("http://".to_string()),
        timeout: 30,
    };

    assert_eq!(creds.host_for_signing(), "localhost");
}

#[test]
fn test_parse_endpoint_with_trailing_slash() {
    // Endpoints with trailing slash should parse correctly
    let (host, port, tls) =
        parse_endpoint(Some("http://localhost:9000/"), "bucket", "us-east-1");

    assert_eq!(host, "localhost");
    assert_eq!(port, 9000);
    assert!(!tls);
}

#[test]
fn test_parse_endpoint_with_path() {
    // Endpoints with path should ignore the path and use host:port only
    let (host, port, tls) = parse_endpoint(
        Some("http://minio.local:9000/some/path"),
        "bucket",
        "us-east-1",
    );

    assert_eq!(host, "minio.local");
    assert_eq!(port, 9000);
    assert!(!tls);
}

#[test]
fn test_parse_endpoint_empty_host_defaults_to_localhost() {
    // Malformed URL with empty host should default to localhost
    let (host, port, tls) = parse_endpoint(Some("http://:9000"), "bucket", "us-east-1");

    assert_eq!(host, "localhost");
    assert_eq!(port, 9000);
    assert!(!tls);
}

#[test]
fn test_parse_endpoint_completely_empty() {
    // Completely empty endpoint (just scheme) should default to localhost
    let (host, port, tls) = parse_endpoint(Some("http://"), "bucket", "us-east-1");

    assert_eq!(host, "localhost");
    assert_eq!(port, 80);
    assert!(!tls);
}

#[test]
fn test_host_for_signing_drops_path_and_port() {
    let mut creds = S3Credentials {
        bucket: "test".to_string(),
        region: "us-east-1".to_string(),
        access_key: "key".to_string(),
        secret_key: "secret".to_string(),
        endpoint: Some("http://minio.local/some/path".to_string()),
        timeout: 30,
    };
    assert_eq!(creds.host_for_signing(), "minio.local");
    let (host, _, _) = parse_endpoint(Some("http://minio.local/some/path"), "test", "us-east-1");
    assert_eq!(host, "minio.local");
    creds.endpoint = Some("https://minio.local:9443/x:y".to_string());
    assert_eq!(creds.host_for_signing(), "minio.local");
}
