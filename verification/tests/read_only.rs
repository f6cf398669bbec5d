use yatagarasu::metrics::Metrics;
use yatagarasu::proxy::{
    answer_method_gate, check_method, method_not_allowed_body, preflight_headers, MethodCheck,
};

#[test]
fn test_read_methods_pass() {
    assert_eq!(check_method("/products/a.jpg", "GET"), MethodCheck::Allowed);
    assert_eq!(check_method("/products/a.jpg", "HEAD"), MethodCheck::Allowed);
}

#[test]
fn test_writes_are_refused() {
    for method in ["PUT", "POST", "DELETE", "PATCH", "get"] {
        assert_eq!(check_method("/products/a.jpg", method), MethodCheck::NotAllowed);
    }
}

#[test]
fn test_options_is_a_preflight() {
    assert_eq!(check_method("/products/a.jpg", "OPTIONS"), MethodCheck::Preflight);
    assert_eq!(check_method("/health", "OPTIONS"), MethodCheck::Preflight);
}

#[test]
fn test_special_endpoints_take_their_methods() {
    assert_eq!(check_method("/health", "DELETE"), MethodCheck::Allowed);
    assert_eq!(check_method("/ready", "POST"), MethodCheck::Allowed);
    assert_eq!(check_method("/metrics", "PUT"), MethodCheck::Allowed);
    assert_eq!(check_method("/admin/reload", "POST"), MethodCheck::Allowed);
    assert_eq!(check_method("/admin/reload", "PUT"), MethodCheck::NotAllowed);
    assert_eq!(check_method("/admin/cache/purge", "POST"), MethodCheck::Allowed);
    assert_eq!(check_method("/admin/cache/stats", "GET"), MethodCheck::Allowed);
    assert_eq!(check_method("/admin/cache/purge", "DELETE"), MethodCheck::NotAllowed);
}

#[test]
fn test_method_not_allowed_body() {
    assert_eq!(
        method_not_allowed_body("PUT"),
        "{\"error\":\"Method Not Allowed\",\"message\":\"Method PUT is not allowed. This is a read-only S3 proxy. Allowed methods: GET, HEAD, OPTIONS\",\"status\":405}"
    );
}

#[test]
fn test_preflight_headers() {
    let headers = preflight_headers();
    assert_eq!(headers.len(), 5);
    assert_eq!(headers[0], ("Allow".to_string(), "GET, HEAD, OPTIONS".to_string()));
    assert_eq!(
        headers[2],
        ("Access-Control-Allow-Headers".to_string(), "Authorization, Content-Type, Range".to_string())
    );
    assert_eq!(headers[3], ("Access-Control-Max-Age".to_string(), "86400".to_string()));
}

#[test]
fn test_answer_method_gate() {
    let mut metrics = Metrics::new();
    assert!(answer_method_gate("/products/a.jpg", "GET", &mut metrics).is_none());
    assert_eq!(metrics.get_status_count(200), 0);

    let pre = answer_method_gate("/products/a.jpg", "OPTIONS", &mut metrics).expect("answered");
    assert_eq!(pre.status, 200);
    assert_eq!(pre.headers, preflight_headers());
    assert_eq!(pre.body, "");
    assert_eq!(metrics.get_status_count(200), 1);

    let refused = answer_method_gate("/products/a.jpg", "DELETE", &mut metrics).expect("answered");
    assert_eq!(refused.status, 405);
    assert_eq!(refused.body, method_not_allowed_body("DELETE"));
    assert_eq!(
        refused.headers,
        vec![
            ("Content-Type".to_string(), "application/json".to_string()),
            ("Allow".to_string(), "GET, HEAD, OPTIONS".to_string()),
            ("Content-Length".to_string(), refused.body.len().to_string()),
        ]
    );
    assert_eq!(refused.body.len(), 151);
    assert_eq!(metrics.get_status_count(405), 1);
}
