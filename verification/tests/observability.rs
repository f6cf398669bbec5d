use yatagarasu::observability::config::{
    check_exporter_endpoint, default_redact_headers, parse_exporter_type, ExporterType,
    RequestLoggingConfig, SlowQueryConfig,
};
use yatagarasu::observability::tracing::{RequestTiming, TracingError};

#[test]
fn test_request_logging_config_defaults() {
    let config = RequestLoggingConfig::default();
    assert!(!config.log_requests);
    assert!(!config.log_responses);
    assert!(config.include_paths.is_empty());
    assert!(config.exclude_paths.is_empty());
    assert!(config.status_codes.is_empty());
    assert!(config.redact_headers.contains(&"authorization".to_string()));
    assert_eq!(config.max_body_size, 1024);
}

#[test]
fn test_slow_query_config_defaults() {
    let config = SlowQueryConfig::default();
    assert!(!config.enabled);
    assert_eq!(config.threshold_ms, 1000);
    assert!(config.include_breakdown);
    assert_eq!(config.log_level, "warn");
}

#[test]
fn test_default_redact_headers_include_sensitive() {
    let headers = default_redact_headers();
    assert!(headers.contains(&"authorization".to_string()));
    assert!(headers.contains(&"x-api-key".to_string()));
    assert!(headers.contains(&"cookie".to_string()));
    assert!(headers.contains(&"x-amz-security-token".to_string()));
}

#[test]
fn test_exporter_type_parsing() {
    assert_eq!(parse_exporter_type("otlp"), ExporterType::Otlp);
    assert_eq!(parse_exporter_type("OTLP"), ExporterType::Otlp);
    assert_eq!(parse_exporter_type("jaeger"), ExporterType::Jaeger);
    assert_eq!(parse_exporter_type("zipkin"), ExporterType::Zipkin);
    assert_eq!(parse_exporter_type("none"), ExporterType::NoExporter);
    assert_eq!(parse_exporter_type(""), ExporterType::NoExporter);
    assert_eq!(parse_exporter_type("unknown"), ExporterType::NoExporter);
}

#[test]
fn exporter_endpoint_requirements() {
    assert!(check_exporter_endpoint(ExporterType::Otlp, true, false, false).is_ok());
    assert_eq!(
        check_exporter_endpoint(ExporterType::Otlp, false, true, true),
        Err("OTLP exporter requires otlp_endpoint".to_string())
    );
    assert_eq!(
        check_exporter_endpoint(ExporterType::Jaeger, true, false, true),
        Err("Jaeger exporter requires jaeger_endpoint".to_string())
    );
    assert_eq!(
        check_exporter_endpoint(ExporterType::Zipkin, true, true, false),
        Err("Zipkin exporter requires zipkin_endpoint".to_string())
    );
    assert!(check_exporter_endpoint(ExporterType::NoExporter, false, false, false).is_ok());
}

#[test]
fn test_request_timing_builder() {
    let timing = RequestTiming::new()
        .with_total(100)
        .with_auth(10)
        .with_cache(5)
        .with_s3(80);

    assert_eq!(timing.total_ms, 100);
    assert_eq!(timing.auth_ms, Some(10));
    assert_eq!(timing.cache_ms, Some(5));
    assert_eq!(timing.s3_ms, Some(80));
}

#[test]
fn test_tracing_error_display() {
    let err = TracingError::ConfigError("test error".to_string());
    assert!(err.message().contains("Configuration error"));

    let err = TracingError::InitError("init failed".to_string());
    assert!(err.message().contains("Failed to initialize"));

    let err = TracingError::ExporterError("export failed".to_string());
    assert!(err.message().contains("Failed to create exporter"));
}

#[test]
fn tracing_error_full_text() {
    let err = TracingError::ConfigError("bad".to_string());
    assert_eq!(err.message(), "Configuration error: bad");
}
