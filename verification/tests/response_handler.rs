use std::time::Duration;
use yatagarasu::proxy::response_handler::{
    buffer_response_chunk, build_cache_entry, build_cache_key, capture_response_headers,
    default_cache_ttl, get_effective_ttl,
    is_optimizable_image, should_cache_response, BufferResult, CachePopulationResult,
    CapturedHeaders, OptimizationResult,
};


#[test]
fn test_response_handler_module_exists() {
    let _ = CapturedHeaders::new();
    let _ = BufferResult::Empty;
    let _ = CachePopulationResult::NotConfigured;
    let _ = OptimizationResult::NotRequested;
}

#[test]
fn test_captured_headers_default() {
    let headers = CapturedHeaders::new();

    assert!(headers.content_type.is_none());
    assert!(headers.etag.is_none());
    assert!(headers.last_modified.is_none());
    assert!(headers.cache_control.is_none());
}

#[test]
fn test_captured_headers_should_cache_no_directive() {
    let headers = CapturedHeaders::new();

    // No Cache-Control means cacheable by default
    assert!(headers.should_cache());
}

#[test]
fn test_captured_headers_should_cache_with_no_store() {
    let mut headers = CapturedHeaders::new();
    headers.cache_control = Some("no-store".to_string());

    assert!(!headers.should_cache());
}

#[test]
fn test_captured_headers_should_cache_with_no_cache() {
    let mut headers = CapturedHeaders::new();
    headers.cache_control = Some("no-cache".to_string());

    // no-cache means must revalidate, but can still store
    assert!(headers.should_cache());
}

#[test]
fn test_captured_headers_effective_ttl_from_max_age() {
    let mut headers = CapturedHeaders::new();
    headers.cache_control = Some("max-age=3600".to_string());

    let ttl = headers.effective_ttl(Duration::from_secs(600));
    assert_eq!(ttl, Duration::from_secs(3600));
}

#[test]
fn test_captured_headers_effective_ttl_default() {
    let headers = CapturedHeaders::new();

    let ttl = headers.effective_ttl(Duration::from_secs(600));
    assert_eq!(ttl, Duration::from_secs(600));
}

#[test]
fn test_buffer_response_chunk_success() {
    let mut buffer = Vec::new();
    let chunk = b"hello world";

    let result = buffer_response_chunk(&mut buffer, chunk, 100);

    assert_eq!(
        result,
        BufferResult::Buffered {
            total_size: chunk.len()
        }
    );
    assert_eq!(buffer, chunk);
}

#[test]
fn test_buffer_response_chunk_exceeds_max() {
    let mut buffer = vec![0u8; 50];
    let chunk = b"hello world";

    let result = buffer_response_chunk(&mut buffer, chunk, 55);

    assert_eq!(
        result,
        BufferResult::ExceededMaxSize {
            attempted_size: 50 + chunk.len()
        }
    );
    // Buffer unchanged on failure
    assert_eq!(buffer.len(), 50);
}

#[test]
fn test_buffer_response_chunk_empty() {
    let mut buffer = Vec::new();

    let result = buffer_response_chunk(&mut buffer, &[], 100);

    assert_eq!(result, BufferResult::Empty);
}

#[test]
fn test_build_cache_key_without_variant() {
    let key = build_cache_key("my-bucket", "path/to/file.jpg", None);

    assert_eq!(key.bucket, "my-bucket");
    assert_eq!(key.object_key, "path/to/file.jpg");
    assert!(key.variant.is_none());
}

#[test]
fn response_handler_test_build_cache_key_with_variant() {
    let key = build_cache_key("my-bucket", "image.jpg", Some("w=100&h=100".to_string()));

    assert_eq!(key.bucket, "my-bucket");
    assert_eq!(key.object_key, "image.jpg");
    assert_eq!(key.variant, Some("w=100&h=100".to_string()));
}



#[test]
fn test_is_optimizable_image_jpeg() {
    assert!(is_optimizable_image("image/jpeg"));
    assert!(is_optimizable_image("image/jpg"));
    assert!(is_optimizable_image("Image/JPEG")); // case insensitive
}

#[test]
fn test_is_optimizable_image_png() {
    assert!(is_optimizable_image("image/png"));
}

#[test]
fn test_is_optimizable_image_webp() {
    assert!(is_optimizable_image("image/webp"));
}

#[test]
fn test_is_optimizable_image_gif() {
    assert!(is_optimizable_image("image/gif"));
}

#[test]
fn test_is_optimizable_image_avif() {
    assert!(is_optimizable_image("image/avif"));
}

#[test]
fn test_is_optimizable_image_not_image() {
    assert!(!is_optimizable_image("text/html"));
    assert!(!is_optimizable_image("application/json"));
    assert!(!is_optimizable_image("video/mp4"));
}

#[test]
fn test_is_optimizable_image_unsupported_format() {
    assert!(!is_optimizable_image("image/svg+xml"));
    assert!(!is_optimizable_image("image/bmp"));
    assert!(!is_optimizable_image("image/tiff"));
}

#[test]
fn test_get_effective_ttl() {
    let mut headers = CapturedHeaders::new();
    headers.cache_control = Some("max-age=7200".to_string());

    let ttl = get_effective_ttl(&headers);
    assert_eq!(ttl, Duration::from_secs(7200));
}

#[test]
fn test_get_effective_ttl_uses_default() {
    let headers = CapturedHeaders::new();

    let ttl = get_effective_ttl(&headers);
    assert_eq!(ttl, default_cache_ttl());
}

#[test]
fn test_should_cache_response() {
    let headers = CapturedHeaders::new();
    assert!(should_cache_response(&headers));

    let mut headers_no_store = CapturedHeaders::new();
    headers_no_store.cache_control = Some("no-store".to_string());
    assert!(!should_cache_response(&headers_no_store));
}

#[test]
fn test_build_cache_entry() {
    let mut headers = CapturedHeaders::new();
    headers.content_type = Some("image/jpeg".to_string());
    headers.etag = Some("abc123".to_string());
    headers.last_modified = Some("Wed, 21 Oct 2015 07:28:00 GMT".to_string());

    let entry = build_cache_entry(
        b"test data".to_vec(),
        &headers,
        Duration::from_secs(3600),
    );

    assert_eq!(entry.content_type, "image/jpeg");
    assert_eq!(entry.etag, "abc123");
    assert_eq!(
        entry.last_modified,
        Some("Wed, 21 Oct 2015 07:28:00 GMT".to_string())
    );
}

#[test]
fn test_build_cache_entry_defaults() {
    let headers = CapturedHeaders::new();

    let entry = build_cache_entry(b"data".to_vec(), &headers, Duration::from_secs(600));

    assert_eq!(entry.content_type, "application/octet-stream");
    assert_eq!(entry.etag, "");
    assert!(entry.last_modified.is_none());
}

#[test]
fn test_build_cache_entry_keeps_body_and_ttl() {
    let headers = CapturedHeaders::new();
    let entry = build_cache_entry(vec![1, 2, 3], &headers, Duration::from_secs(60));
    assert_eq!(entry.data, vec![1, 2, 3]);
    assert_eq!(entry.ttl, Some(Duration::from_secs(60)));
}

fn header(name: &str, value: &str) -> (String, String) {
    (name.to_string(), value.to_string())
}

#[test]
fn test_capture_response_headers() {
    let headers = vec![
        header("content-type", "image/png"),
        header("ETag", "\"v1-abc\""),
        header("Last-Modified", "Wed, 21 Oct 2015 07:28:00 GMT"),
        header("cache-control", "max-age=60"),
        header("x-other", "ignored"),
    ];
    let captured = capture_response_headers(&headers);
    assert_eq!(captured.content_type, Some("image/png".to_string()));
    assert_eq!(captured.etag, Some("v1-abc".to_string()));
    assert_eq!(
        captured.last_modified,
        Some("Wed, 21 Oct 2015 07:28:00 GMT".to_string())
    );
    assert_eq!(captured.cache_control, Some("max-age=60".to_string()));
    assert_eq!(get_effective_ttl(&captured), Duration::from_secs(60));
}

#[test]
fn test_capture_response_headers_missing_and_unreadable() {
    let headers = vec![
        header("content-type", "text/plain; name=caf\u{e9}"),
        header("etag", "\"\"\""),
    ];
    let captured = capture_response_headers(&headers);
    // A value outside visible ASCII does not read as text.
    assert_eq!(captured.content_type, None);
    // An ETag made only of quotes trims to nothing.
    assert_eq!(captured.etag, Some(String::new()));
    assert_eq!(captured.last_modified, None);
    assert_eq!(captured.cache_control, None);
}

#[test]
fn test_capture_prefers_lower_case_name() {
    let headers = vec![
        header("Content-Type", "text/html"),
        header("content-type", "application/json"),
    ];
    let captured = capture_response_headers(&headers);
    assert_eq!(captured.content_type, Some("application/json".to_string()));
}
