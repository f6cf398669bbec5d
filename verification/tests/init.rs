use std::time::Duration;
use yatagarasu::config::{AuthorizationConfig, BucketConfig, RateLimitConfig, S3Config};
use yatagarasu::proxy::init::{
    initialize_openfga_clients, initialize_opa_clients, initialize_rate_limit_manager,
    initialize_retry_policies,
};
use yatagarasu::retry::RetryPolicy;

fn bucket(name: &str, rate_limit: Option<u32>) -> BucketConfig {
    BucketConfig {
        name: name.to_string(),
        path_prefix: format!("/{}", name),
        s3: S3Config {
            bucket: name.to_string(),
            region: "us-east-1".to_string(),
            rate_limit,
            ..Default::default()
        },
        auth: None,
        authorization: None,
    }
}

#[test]
fn test_initialize_rate_limit_manager_disabled() {
    // A minimal configuration: no rate limit section, no bucket.
    let manager = initialize_rate_limit_manager(&None, &Vec::new());
    assert!(manager.is_none());
}

#[test]
fn test_initialize_rate_limit_manager_switched_off() {
    let config = RateLimitConfig { enabled: false, global_rps: Some(10), per_ip_rps: Some(1) };
    let manager = initialize_rate_limit_manager(&Some(config), &vec![bucket("a", Some(5))]);
    assert!(manager.is_none());
}

#[test]
fn test_initialize_rate_limit_manager_with_buckets() {
    let config = RateLimitConfig { enabled: true, global_rps: None, per_ip_rps: Some(2) };
    let buckets = vec![bucket("products", Some(1)), bucket("public", None), bucket("zero", Some(0))];
    let mut manager = initialize_rate_limit_manager(&Some(config), &buckets).expect("enabled");
    assert_eq!(manager.tracked_bucket_count(), 1);
    assert!(manager.check_bucket("products"));
    assert!(!manager.check_bucket("products"));
    assert!(manager.check_bucket("public"));
    assert!(manager.check_bucket("zero"));
    assert!(manager.check_ip("10.0.0.1"));
    assert!(manager.check_ip("10.0.0.1"));
    assert!(!manager.check_ip("10.0.0.1"));
    assert!(manager.check_global());
}

fn default_policy() -> RetryPolicy {
    RetryPolicy { max_attempts: 3, initial_backoff_ms: 100, max_backoff_ms: 1000 }
}

#[test]
fn test_initialize_retry_policies_defaults() {
    // Empty buckets means empty policies
    let policies = initialize_retry_policies(&Vec::new(), &default_policy());
    assert_eq!(policies.len(), 0);
}

#[test]
fn test_initialize_retry_policies_per_bucket() {
    let own = RetryPolicy { max_attempts: 5, initial_backoff_ms: 50, max_backoff_ms: 500 };
    let mut custom = bucket("custom", None);
    custom.s3.retry = Some(own);
    let buckets = vec![bucket("plain", None), custom];
    let policies = initialize_retry_policies(&buckets, &default_policy());
    assert_eq!(policies.len(), 2);
    assert_eq!(policies.get("plain"), Some(&default_policy()));
    assert_eq!(policies.get("custom"), Some(&own));
    assert_eq!(policies.get("other"), None);
}

fn authorization(auth_type: &str) -> AuthorizationConfig {
    AuthorizationConfig {
        auth_type: auth_type.to_string(),
        opa_url: None,
        opa_policy_path: None,
        opa_timeout_ms: 100,
        opa_cache_ttl_seconds: 60,
        openfga_endpoint: None,
        openfga_store_id: None,
        openfga_api_token: None,
        openfga_authorization_model_id: None,
        openfga_timeout_ms: 100,
    }
}

fn opa_bucket(name: &str, ttl: u64) -> BucketConfig {
    let mut b = bucket(name, None);
    b.authorization = Some(AuthorizationConfig {
        opa_url: Some("http://opa:8181".to_string()),
        opa_policy_path: Some("yatagarasu/authz/allow".to_string()),
        opa_cache_ttl_seconds: ttl,
        ..authorization("opa")
    });
    b
}

#[test]
fn test_initialize_opa_clients_no_opa_buckets() {
    let (clients, cache) = initialize_opa_clients(&Vec::new());
    assert_eq!(clients.len(), 0);
    assert!(cache.is_none());
}

#[test]
fn test_initialize_opa_clients_selects_opa_buckets() {
    let mut incomplete = bucket("incomplete", None);
    incomplete.authorization = Some(authorization("opa"));
    let mut fga = bucket("fga", None);
    fga.authorization = Some(authorization("openfga"));
    let buckets = vec![opa_bucket("a", 30), incomplete, fga, opa_bucket("b", 300), bucket("public", None)];
    let (clients, cache) = initialize_opa_clients(&buckets);
    assert_eq!(clients.len(), 2);
    let a = clients.get("a").expect("client for a");
    assert_eq!(a.config().url, "http://opa:8181");
    assert_eq!(a.config().policy_path, "yatagarasu/authz/allow");
    assert_eq!(a.config().cache_ttl_seconds, 30);
    assert!(clients.get("incomplete").is_none());
    assert_eq!(cache, Some(300));

    // The shared cache lives at least 60 seconds.
    let (_, short) = initialize_opa_clients(&vec![opa_bucket("a", 5)]);
    assert_eq!(short, Some(60));
}

#[test]
fn test_initialize_openfga_clients_no_openfga_buckets() {
    let clients = initialize_openfga_clients(&vec![opa_bucket("a", 60), bucket("public", None)]);
    assert_eq!(clients.len(), 0);
}

#[test]
fn test_initialize_openfga_clients_builds_configured_clients() {
    let mut full = bucket("full", None);
    full.authorization = Some(AuthorizationConfig {
        openfga_endpoint: Some("http://openfga:8080".to_string()),
        openfga_store_id: Some("store-1".to_string()),
        openfga_api_token: Some("SECRET-REDACTED".to_string()),
        openfga_authorization_model_id: Some("model-7".to_string()),
        openfga_timeout_ms: 250,
        ..authorization("openfga")
    });
    let mut empty_store = bucket("empty", None);
    empty_store.authorization = Some(AuthorizationConfig {
        openfga_endpoint: Some("http://openfga:8080".to_string()),
        openfga_store_id: Some(String::new()),
        ..authorization("openfga")
    });
    let clients = initialize_openfga_clients(&vec![full, empty_store]);
    assert_eq!(clients.len(), 1);
    let c = clients.get("full").expect("client for full");
    assert_eq!(c.endpoint(), "http://openfga:8080");
    assert_eq!(c.store_id(), "store-1");
    assert_eq!(c.api_token(), Some("SECRET-REDACTED"));
    assert_eq!(c.authorization_model_id(), Some("model-7"));
    assert_eq!(c.timeout(), Duration::from_millis(250));
    assert!(clients.get("empty").is_none());
}
