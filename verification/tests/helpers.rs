use yatagarasu::circuit_breaker::{CircuitBreakerSnapshot, CircuitState};
use yatagarasu::proxy::helpers::export_circuit_breaker_metrics;

#[test]
fn test_export_circuit_breaker_metrics_empty() {
    let circuit_breakers = Vec::new();
    let metrics = export_circuit_breaker_metrics(&circuit_breakers);
    assert!(metrics.contains("circuit_breaker_state"));
    assert!(metrics.contains("circuit_breaker_failures"));
    assert!(metrics.contains("circuit_breaker_successes"));
}

#[test]
fn export_circuit_breaker_metrics_lines() {
    let breakers = vec![
        (
            "products".to_string(),
            CircuitBreakerSnapshot { state: CircuitState::Open, failure_count: 5, success_count: 0 },
        ),
        (
            "images".to_string(),
            CircuitBreakerSnapshot { state: CircuitState::HalfOpen, failure_count: 0, success_count: 2 },
        ),
    ];
    let text = export_circuit_breaker_metrics(&breakers);
    let expected = "\n# HELP circuit_breaker_state Circuit breaker state per bucket (0=closed, 1=open, 2=half-open)\n\
# TYPE circuit_breaker_state gauge\n\
circuit_breaker_state{bucket=\"products\"} 1\n\
circuit_breaker_state{bucket=\"images\"} 2\n\
\n# HELP circuit_breaker_failures Current consecutive failure count\n\
# TYPE circuit_breaker_failures gauge\n\
circuit_breaker_failures{bucket=\"products\"} 5\n\
circuit_breaker_failures{bucket=\"images\"} 0\n\
\n# HELP circuit_breaker_successes Success count in half-open state\n\
# TYPE circuit_breaker_successes gauge\n\
circuit_breaker_successes{bucket=\"products\"} 0\n\
circuit_breaker_successes{bucket=\"images\"} 2\n";
    assert_eq!(text, expected);
}

use yatagarasu::proxy::helpers::{client_ip, parse_query_params};

#[test]
fn test_extract_query_params_empty() {
    let params = parse_query_params(None);
    assert_eq!(params.len(), 0);
}

#[test]
fn test_extract_query_params_single() {
    let params = parse_query_params(Some("key=value"));
    assert_eq!(params.get("key"), Some(&"value".to_string()));
}

#[test]
fn test_extract_query_params_multiple() {
    let params = parse_query_params(Some("a=1&b=2&c=3"));
    assert_eq!(params.get("a"), Some(&"1".to_string()));
    assert_eq!(params.get("b"), Some(&"2".to_string()));
    assert_eq!(params.get("c"), Some(&"3".to_string()));
}

#[test]
fn test_extract_query_params_url_encoded() {
    let params = parse_query_params(Some("name=hello%20world"));
    assert_eq!(params.get("name"), Some(&"hello world".to_string()));
}

#[test]
fn query_params_edge_cases() {
    let params = parse_query_params(Some("flag&x=1=2&x=3&bad=%FF&plus=a+b"));
    assert_eq!(params.get("flag"), None);
    assert_eq!(params.get("x"), Some(&"3".to_string()));
    assert_eq!(params.get("bad"), Some(&"".to_string()));
    assert_eq!(params.get("plus"), Some(&"a+b".to_string()));
    assert_eq!(params.len(), 3);
}

#[test]
fn client_ip_prefers_forwarded_for() {
    assert_eq!(client_ip(Some(" 10.0.0.1 , 10.0.0.2"), Some("1.2.3.4:5".to_string())), "10.0.0.1");
    assert_eq!(client_ip(None, Some("1.2.3.4:5".to_string())), "1.2.3.4:5");
    assert_eq!(client_ip(None, None), "unknown");
}

#[test]
fn client_ip_trims_unicode_white_space_as_str_trim_does() {
    let header = "\u{a0}\t203.0.113.5\u{2003} , 10.0.0.1";
    let ip = client_ip(Some(header), None);
    assert_eq!(ip, "203.0.113.5");
    assert_eq!(ip, header.split(',').next().unwrap().trim());
}
