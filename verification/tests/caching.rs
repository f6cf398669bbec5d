use std::time::Duration;
use yatagarasu::cache::CacheControl;
use yatagarasu::proxy::response_handler::{get_effective_ttl, is_optimizable_image, CapturedHeaders};

#[test]
fn cache_control_parsing() {
    let cc = CacheControl::parse(" Max-Age=60 ,s-maxage=120, must-revalidate");
    assert_eq!(cc.max_age, Some(60));
    assert_eq!(cc.s_maxage, Some(120));
    assert!(cc.must_revalidate);
    assert!(cc.should_store());
    assert_eq!(cc.effective_ttl(Duration::from_secs(1)), Duration::from_secs(120));
    let cc = CacheControl::parse("max-age=abc");
    assert_eq!(cc.max_age, None);
    assert_eq!(cc.effective_ttl(Duration::from_secs(7)), Duration::from_secs(7));
    assert!(!CacheControl::parse("public, NO-STORE").should_store());
    assert!(!CacheControl::parse("private").should_store());
    assert!(CacheControl::parse("no-cache").should_store());
    assert_eq!(CacheControl::parse(""), CacheControl::default());
}

#[test]
fn no_store_law_on_concrete_values() {
    for header in ["no-store", "max-age=10, no-store", "no-store,max-age=10", "\tNo-Store "] {
        let mut h = CapturedHeaders::new();
        h.cache_control = Some(header.to_string());
        assert!(!h.should_cache(), "{header}");
    }
}

#[test]
fn ttl_from_headers() {
    let mut h = CapturedHeaders::new();
    h.cache_control = Some("max-age=0".to_string());
    assert_eq!(get_effective_ttl(&h), Duration::from_secs(0));
}

#[test]
fn optimizable_images_ignore_case() {
    assert!(is_optimizable_image("IMAGE/WEBP"));
    assert!(is_optimizable_image("image/x-png; charset=binary"));
    assert!(!is_optimizable_image("text/image/png"));
}
