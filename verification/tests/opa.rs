use yatagarasu::opa::{OpaClient, OpaClientConfig, OpaInput, OpaRequest, OpaResponse, OpaResultValue};

#[test]
fn test_opa_client_config_fields() {
    let config = OpaClientConfig {
        url: "http://localhost:8181".to_string(),
        policy_path: "authz/allow".to_string(),
        timeout_ms: 5000,
        cache_ttl_seconds: 60,
    };

    assert_eq!(config.url, "http://localhost:8181");
    assert_eq!(config.policy_path, "authz/allow");
    assert_eq!(config.timeout_ms, 5000);
    assert_eq!(config.cache_ttl_seconds, 60);
    let client = OpaClient::new(config);
    assert_eq!(client.config().timeout_ms, 5000);
}

/// Reads the `result` member of an OPA answer the way the proxy does.
fn response_from_json(json: &str) -> OpaResponse {
    let v: serde_json::Value = serde_json::from_str(json).unwrap();
    let result = match &v["result"] {
        serde_json::Value::Bool(b) => OpaResultValue::Bool(*b),
        serde_json::Value::Object(o) => OpaResultValue::Object {
            allow: o.get("allow").and_then(|a| a.as_bool()),
            reason: o.get("reason").and_then(|r| r.as_str()).map(|s| s.to_string()),
        },
        _ => OpaResultValue::Other,
    };
    OpaResponse::from_result(result)
}

#[test]
fn test_opa_response_simple_true() {
    let json = r#"{"result": true}"#;
    let response = response_from_json(json);
    assert!(response.is_allowed());
    assert!(response.reason().is_none());
}

#[test]
fn test_opa_response_simple_false() {
    let json = r#"{"result": false}"#;
    let response = response_from_json(json);
    assert!(!response.is_allowed());
}

#[test]
fn test_opa_response_detailed_with_reason() {
    let json = r#"{"result": {"allow": true, "reason": "Admin access"}}"#;
    let response = response_from_json(json);
    assert!(response.is_allowed());
    assert_eq!(response.reason(), Some("Admin access"));
}

#[test]
fn test_opa_response_undefined_is_deny() {
    let json = r#"{"result": null}"#;
    let response = response_from_json(json);
    assert!(!response.is_allowed());
}

#[test]
fn opa_request_wraps_input() {
    let input = OpaInput::new(
        serde_json::Value::Null,
        "bucket".to_string(),
        "/path".to_string(),
        "GET".to_string(),
        None,
    );
    let request = OpaRequest::new(input);
    assert_eq!(request.input().bucket(), "bucket");
    assert_eq!(request.input().client_ip(), None);
}
