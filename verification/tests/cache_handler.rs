use std::time::Duration;
use yatagarasu::cache::CacheEntry;
use yatagarasu::proxy::cache_handler::{
    build_cache_key, build_not_modified_response, extract_conditional_headers,
    handle_conditional_request, has_streaming_coalescer, serve_from_cache, ConditionalResult,
};


/// Helper to create a test cache entry.
fn test_cache_entry(etag: &str, last_modified: Option<&str>) -> CacheEntry {
    CacheEntry::new(
        b"test data".to_vec(),
        "text/plain".to_string(),
        etag.to_string(),
        last_modified.map(|s| s.to_string()),
        Some(Duration::from_secs(3600)),
    )
}

#[test]
fn test_build_cache_key() {
    let key = build_cache_key("my-bucket", "path/to/file.jpg", None);

    assert_eq!(key.bucket, "my-bucket");
    assert_eq!(key.object_key, "path/to/file.jpg");
    assert_eq!(key.etag, None);
    assert_eq!(key.variant, None);
}

#[test]
fn cache_handler_test_build_cache_key_with_variant() {
    let key = build_cache_key("my-bucket", "image.jpg", Some("w=100&h=100".to_string()));

    assert_eq!(key.bucket, "my-bucket");
    assert_eq!(key.object_key, "image.jpg");
    assert_eq!(key.variant, Some("w=100&h=100".to_string()));
}

#[test]
fn test_extract_conditional_headers() {
    let mut headers: Vec<(String, String)> = Vec::new();
    headers.push(("If-None-Match".to_string(), "abc123".to_string()));
    headers.push((
        "If-Modified-Since".to_string(),
        "Wed, 21 Oct 2015 07:28:00 GMT".to_string(),
    ));

    let (etag, modified) = extract_conditional_headers(&headers);

    assert_eq!(etag, Some("abc123".to_string()));
    assert_eq!(
        modified,
        Some("Wed, 21 Oct 2015 07:28:00 GMT".to_string())
    );
}

#[test]
fn test_extract_conditional_headers_lowercase() {
    let mut headers: Vec<(String, String)> = Vec::new();
    headers.push(("if-none-match".to_string(), "abc123".to_string()));
    headers.push((
        "if-modified-since".to_string(),
        "Wed, 21 Oct 2015 07:28:00 GMT".to_string(),
    ));

    let (etag, modified) = extract_conditional_headers(&headers);

    assert_eq!(etag, Some("abc123".to_string()));
    assert_eq!(
        modified,
        Some("Wed, 21 Oct 2015 07:28:00 GMT".to_string())
    );
}

#[test]
fn test_has_streaming_coalescer_none() {
    assert!(!has_streaming_coalescer(None));
}


#[test]
fn test_handle_conditional_request_etag_match() {
    let entry = test_cache_entry("abc123", None);
    let result = handle_conditional_request(&entry, Some("abc123"), None);

    match result {
        ConditionalResult::NotModifiedByEtag { etag } => assert_eq!(etag, "abc123"),
        _ => panic!("Expected NotModifiedByEtag"),
    }
}

#[test]
fn test_handle_conditional_request_etag_no_match() {
    let entry = test_cache_entry("abc123", None);
    let result = handle_conditional_request(&entry, Some("different"), None);

    assert!(matches!(result, ConditionalResult::Modified));
}

#[test]
fn test_handle_conditional_request_last_modified_match() {
    let entry = test_cache_entry("abc123", Some("Wed, 21 Oct 2015 07:28:00 GMT"));
    let result =
        handle_conditional_request(&entry, None, Some("Wed, 21 Oct 2015 07:28:00 GMT"));

    match result {
        ConditionalResult::NotModifiedByDate { last_modified, etag } => {
            assert_eq!(last_modified, "Wed, 21 Oct 2015 07:28:00 GMT");
            assert_eq!(etag, Some("abc123".to_string()));
        }
        _ => panic!("Expected NotModifiedByDate"),
    }
}

#[test]
fn test_handle_conditional_request_no_headers() {
    let entry = test_cache_entry("abc123", Some("Wed, 21 Oct 2015 07:28:00 GMT"));
    let result = handle_conditional_request(&entry, None, None);

    assert!(matches!(result, ConditionalResult::Modified));
}

#[test]
fn test_serve_from_cache_get_request() {
    let entry = test_cache_entry("abc123", Some("Wed, 21 Oct 2015 07:28:00 GMT"));
    let response = serve_from_cache(&entry, false);

    assert_eq!(response.status, 200);
    assert_eq!(response.content_type, "text/plain");
    assert_eq!(response.etag, "abc123");
    assert_eq!(
        response.last_modified,
        Some("Wed, 21 Oct 2015 07:28:00 GMT".to_string())
    );
    assert!(response.body.is_some());
}

#[test]
fn test_serve_from_cache_head_request() {
    let entry = test_cache_entry("abc123", None);
    let response = serve_from_cache(&entry, true);

    assert_eq!(response.status, 200);
    assert!(response.body.is_none());
}

#[test]
fn test_build_not_modified_response() {
    let response =
        build_not_modified_response(Some("abc123".to_string()), Some("last-mod".to_string()));

    assert_eq!(response.status, 304);
    assert_eq!(response.etag, "abc123");
    assert_eq!(response.last_modified, Some("last-mod".to_string()));
    assert!(response.body.is_none());
}
