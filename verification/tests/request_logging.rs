use regex::Regex;
use yatagarasu::observability::config::RequestLoggingConfig;
use yatagarasu::observability::request_logging::RequestLogger;

#[test]
fn glob_to_regex_text() {
    assert_eq!(RequestLogger::glob_to_regex("/a.b/*/v?"), Some("^/a\\.b/.*/v.$".to_string()));
    assert_eq!(RequestLogger::glob_to_regex("/bad("), None);
}

#[test]
fn log_request_record_redacts_and_truncates() {
    let config = RequestLoggingConfig {
        log_requests: true,
        log_request_body: true,
        max_body_size: 4,
        ..Default::default()
    };
    let logger = RequestLogger::new(config);
    let rec = logger
        .log_request(
            "POST",
            "/api/users",
            &[
                ("Content-Type".to_string(), "application/json".to_string()),
                ("AUTHORIZATION".to_string(), "Bearer token".to_string()),
            ],
            Some(b"abcdefgh"),
            "req-1",
        )
        .unwrap();
    assert_eq!(rec.correlation_id, "req-1");
    assert_eq!(
        rec.headers,
        vec!["Content-Type: application/json".to_string(), "AUTHORIZATION: [REDACTED]".to_string()]
    );
    assert_eq!(rec.body, Some("abcd... [truncated, 8 bytes total]".to_string()));
}

#[test]
fn log_response_filtered_by_status_gives_no_record() {
    let config = RequestLoggingConfig {
        log_responses: true,
        status_codes: vec![500],
        ..Default::default()
    };
    let logger = RequestLogger::new(config);
    assert!(logger.log_response(200, "/x", &[], None, 5, "c").is_none());
    assert!(logger.log_response(500, "/x", &[], None, 5, "c").is_some());
}

#[test]
fn test_request_logger_disabled_by_default() {
    let logger = RequestLogger::default();
    assert!(!logger.should_log_requests());
    assert!(!logger.should_log_responses());
}

#[test]
fn test_request_logger_enabled() {
    let config = RequestLoggingConfig {
        log_requests: true,
        log_responses: true,
        ..Default::default()
    };
    let logger = RequestLogger::new(config);
    assert!(logger.should_log_requests());
    assert!(logger.should_log_responses());
}

#[test]
fn test_path_filtering_no_patterns() {
    let config = RequestLoggingConfig {
        log_requests: true,
        include_paths: vec![],
        exclude_paths: vec![],
        ..Default::default()
    };
    let logger = RequestLogger::new(config);

    // Should log everything when no patterns
    assert!(logger.should_log_path("/any/path"));
    assert!(logger.should_log_path("/health"));
    assert!(logger.should_log_path("/api/users"));
}

#[test]
fn test_path_filtering_exclude_patterns() {
    let config = RequestLoggingConfig {
        log_requests: true,
        include_paths: vec![],
        exclude_paths: vec!["/health".to_string(), "/metrics".to_string()],
        ..Default::default()
    };
    let logger = RequestLogger::new(config);

    assert!(!logger.should_log_path("/health"));
    assert!(!logger.should_log_path("/metrics"));
    assert!(logger.should_log_path("/api/users"));
    assert!(logger.should_log_path("/any/other/path"));
}

#[test]
fn test_path_filtering_include_patterns() {
    let config = RequestLoggingConfig {
        log_requests: true,
        include_paths: vec!["/api/*".to_string(), "/public/*".to_string()],
        exclude_paths: vec![],
        ..Default::default()
    };
    let logger = RequestLogger::new(config);

    assert!(logger.should_log_path("/api/users"));
    assert!(logger.should_log_path("/api/anything"));
    assert!(logger.should_log_path("/public/images/logo.png"));
    assert!(!logger.should_log_path("/health"));
    assert!(!logger.should_log_path("/other/path"));
}

#[test]
fn test_path_filtering_combined() {
    let config = RequestLoggingConfig {
        log_requests: true,
        include_paths: vec!["/api/*".to_string()],
        exclude_paths: vec!["/api/internal/*".to_string()],
        ..Default::default()
    };
    let logger = RequestLogger::new(config);

    assert!(logger.should_log_path("/api/users"));
    assert!(!logger.should_log_path("/api/internal/debug"));
    assert!(!logger.should_log_path("/health")); // Not in include
}

#[test]
fn test_status_code_filtering_all() {
    let config = RequestLoggingConfig {
        log_responses: true,
        status_codes: vec![],
        ..Default::default()
    };
    let logger = RequestLogger::new(config);

    // Empty status_codes means log all
    assert!(logger.should_log_status(200));
    assert!(logger.should_log_status(400));
    assert!(logger.should_log_status(500));
}

#[test]
fn test_status_code_filtering_specific() {
    let config = RequestLoggingConfig {
        log_responses: true,
        status_codes: vec![400, 500, 502, 503],
        ..Default::default()
    };
    let logger = RequestLogger::new(config);

    assert!(!logger.should_log_status(200));
    assert!(logger.should_log_status(400));
    assert!(logger.should_log_status(500));
    assert!(logger.should_log_status(502));
    assert!(!logger.should_log_status(201));
}

#[test]
fn test_header_redaction() {
    let config = RequestLoggingConfig {
        redact_headers: vec!["Authorization".to_string(), "X-Api-Key".to_string()],
        ..Default::default()
    };
    let logger = RequestLogger::new(config);

    assert!(logger.should_redact_header("Authorization"));
    assert!(logger.should_redact_header("authorization")); // Case insensitive
    assert!(logger.should_redact_header("AUTHORIZATION"));
    assert!(logger.should_redact_header("X-Api-Key"));
    assert!(logger.should_redact_header("x-api-key"));
    assert!(!logger.should_redact_header("Content-Type"));
}

#[test]
fn test_redact_header_value() {
    let config = RequestLoggingConfig {
        redact_headers: vec!["Authorization".to_string()],
        ..Default::default()
    };
    let logger = RequestLogger::new(config);

    assert_eq!(
        logger.redact_header_value("Authorization", "Bearer secret-token"),
        "[REDACTED]"
    );
    assert_eq!(
        logger.redact_header_value("Content-Type", "application/json"),
        "application/json"
    );
}

#[test]
fn test_body_truncation() {
    let config = RequestLoggingConfig {
        max_body_size: 10,
        ..Default::default()
    };
    let logger = RequestLogger::new(config);

    // Short body - no truncation
    let short = b"hello";
    assert_eq!(logger.truncate_body(short), "hello");

    // Exact max size
    let exact = b"1234567890";
    assert_eq!(logger.truncate_body(exact), "1234567890");

    // Long body - truncated
    let long = b"this is a very long body that should be truncated";
    let truncated = logger.truncate_body(long);
    assert!(truncated.contains("this is a "));
    assert!(truncated.contains("[truncated"));
    assert!(truncated.contains("49 bytes total"));
}

#[test]
fn test_glob_to_regex() {
    // Basic path
    let regex = Regex::new(&RequestLogger::glob_to_regex("/health").unwrap()).unwrap();
    assert!(regex.is_match("/health"));
    assert!(!regex.is_match("/health/check"));

    // Wildcard
    let regex = Regex::new(&RequestLogger::glob_to_regex("/api/*").unwrap()).unwrap();
    assert!(regex.is_match("/api/users"));
    assert!(regex.is_match("/api/anything"));
    assert!(!regex.is_match("/other/path"));

    // Question mark
    let regex = Regex::new(&RequestLogger::glob_to_regex("/api/v?").unwrap()).unwrap();
    assert!(regex.is_match("/api/v1"));
    assert!(regex.is_match("/api/v2"));
    assert!(!regex.is_match("/api/v10"));
}

#[test]
fn test_log_request_disabled() {
    let config = RequestLoggingConfig {
        log_requests: false,
        ..Default::default()
    };
    let logger = RequestLogger::new(config);

    // Should not panic even when disabled
    logger.log_request(
        "GET",
        "/test",
        &[("Content-Type".to_string(), "application/json".to_string())],
        None,
        "req-123",
    );
}

#[test]
fn test_log_request_enabled() {
    let config = RequestLoggingConfig {
        log_requests: true,
        log_request_body: true,
        ..Default::default()
    };
    let logger = RequestLogger::new(config);

    // Should not panic
    logger.log_request(
        "POST",
        "/api/users",
        &[
            ("Content-Type".to_string(), "application/json".to_string()),
            ("Authorization".to_string(), "Bearer token".to_string()),
        ],
        Some(b"{\"name\": \"test\"}"),
        "req-456",
    );
}

#[test]
fn test_log_response_disabled() {
    let config = RequestLoggingConfig {
        log_responses: false,
        ..Default::default()
    };
    let logger = RequestLogger::new(config);

    // Should not panic
    logger.log_response(200, "/test", &[], None, 100, "req-123");
}

#[test]
fn test_log_response_enabled() {
    let config = RequestLoggingConfig {
        log_responses: true,
        log_response_body: true,
        status_codes: vec![200, 400, 500],
        ..Default::default()
    };
    let logger = RequestLogger::new(config);

    // Should log 200
    logger.log_response(
        200,
        "/api/users",
        &[("Content-Type".to_string(), "application/json".to_string())],
        Some(b"[{\"id\": 1}]"),
        50,
        "req-789",
    );

    // Should log 400
    logger.log_response(
        400,
        "/api/users",
        &[],
        Some(b"{\"error\": \"bad request\"}"),
        10,
        "req-790",
    );
}

#[test]
fn test_log_response_filtered_by_status() {
    let config = RequestLoggingConfig {
        log_responses: true,
        status_codes: vec![400, 500],
        ..Default::default()
    };
    let logger = RequestLogger::new(config);

    // This should not log because 200 is not in the filter
    // We can't easily verify no logging, but it should not panic
    logger.log_response(200, "/api/users", &[], None, 50, "req-123");
}

#[test]
fn test_log_response_filtered_by_path() {
    let config = RequestLoggingConfig {
        log_responses: true,
        exclude_paths: vec!["/health".to_string()],
        ..Default::default()
    };
    let logger = RequestLogger::new(config);

    // This should not log because path is excluded
    logger.log_response(200, "/health", &[], None, 5, "req-123");
}

#[test]
fn redaction_ignores_ascii_case() {
    let config = RequestLoggingConfig {
        redact_headers: vec!["Authorization".to_string()],
        ..Default::default()
    };
    let logger = RequestLogger::new(config);
    assert!(logger.should_redact_header("AUTHORIZATION"));
    assert!(logger.should_redact_header("authorization"));
    assert_eq!(logger.redact_header_value("AUTHORIZATION", "Bearer x"), "[REDACTED]");
    assert!(!logger.should_redact_header("Content-Type"));
}
