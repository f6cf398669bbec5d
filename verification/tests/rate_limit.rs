use std::time::{Duration, Instant};
use yatagarasu::rate_limit::{first_refusal, RateLimitError, RateLimitManager};

/// Waits, spinning, for at least `ms` milliseconds.
fn wait_ms(ms: u64) {
    let start = Instant::now();
    while start.elapsed() < Duration::from_millis(ms) {
        std::hint::spin_loop();
    }
}

#[test]
fn test_no_limits_allows_all_requests() {
    let mut manager = RateLimitManager::new(None, None);

    // Without any limits configured, all requests should be allowed
    for _ in 0..1000 {
        assert!(manager.check_global());
        assert!(manager.check_bucket("test-bucket"));
        assert!(manager.check_ip("127.0.0.1"));
    }
}

#[test]
fn test_global_rate_limit_enforced() {
    let mut manager = RateLimitManager::new(Some(5), None); // 5 requests per second

    // First 5 requests should succeed
    for i in 0..5 {
        assert!(manager.check_global(), "Request {} should be allowed", i + 1);
    }

    // 6th request should be rate limited
    assert!(!manager.check_global(), "6th request should be rate limited");
}

#[test]
fn test_per_bucket_rate_limit_enforced() {
    let mut manager = RateLimitManager::new(None, None);
    manager.add_bucket_limiter("products".to_string(), 3); // 3 requests per second

    // First 3 requests should succeed
    for i in 0..3 {
        assert!(manager.check_bucket("products"), "Request {} should be allowed", i + 1);
    }

    // 4th request should be rate limited
    assert!(!manager.check_bucket("products"), "4th request should be rate limited");

    // Other buckets should not be affected
    assert!(manager.check_bucket("other-bucket"));
}

#[test]
fn test_per_ip_rate_limit_enforced() {
    let mut manager = RateLimitManager::new(None, Some(2)); // 2 requests per second per IP
    let ip = "192.168.1.100";

    // First 2 requests should succeed
    for i in 0..2 {
        assert!(manager.check_ip(ip), "Request {} should be allowed", i + 1);
    }

    // 3rd request should be rate limited
    assert!(!manager.check_ip(ip), "3rd request should be rate limited");

    // Different IP should not be affected
    let other_ip = "192.168.1.101";
    assert!(manager.check_ip(other_ip));
}

#[test]
fn test_check_all_enforces_all_limits() {
    let mut manager = RateLimitManager::new(Some(10), Some(5));
    manager.add_bucket_limiter("products".to_string(), 3);

    let ip = "10.0.0.1";

    // First 3 requests should succeed (bucket limit is lowest)
    for _ in 0..3 {
        assert!(manager.check_all("products", Some(ip)).is_ok());
    }

    // 4th request should fail due to bucket limit
    let result = manager.check_all("products", Some(ip));
    assert!(result.is_err());
    assert_eq!(
        result.unwrap_err(),
        RateLimitError::PerBucket("products".to_string())
    );
}

#[test]
fn test_rate_limit_refills_over_time() {
    let mut manager = RateLimitManager::new(Some(10), None); // 10 requests per second

    // Consume all tokens
    for _ in 0..10 {
        assert!(manager.check_global());
    }

    // Next request should fail
    assert!(!manager.check_global());

    // Wait for token bucket to refill (>100ms for 1 token at 10/sec)
    wait_ms(150);

    // Should have at least 1 token now
    assert!(manager.check_global(), "Token bucket should have refilled");
}

#[test]
fn test_zero_rate_disables_limiter() {
    let mut manager = RateLimitManager::new(Some(0), Some(0));

    // Zero rate should disable rate limiting (treated as None)
    for _ in 0..100 {
        assert!(manager.check_global());
    }
}

#[test]
fn test_tracked_counts() {
    let mut manager = RateLimitManager::new(None, Some(10));
    manager.add_bucket_limiter("bucket1".to_string(), 10);
    manager.add_bucket_limiter("bucket2".to_string(), 20);

    assert_eq!(manager.tracked_bucket_count(), 2);

    // Trigger IP tracking
    manager.check_ip("1.1.1.1");
    manager.check_ip("2.2.2.2");

    assert_eq!(manager.tracked_ip_count(), 2);
}

#[test]
fn test_cleanup_stale_ips() {
    let mut manager = RateLimitManager::new(None, Some(10));

    // Add 100 IPs
    for i in 0..100 {
        let ip = format!("10.0.0.{}", i);
        manager.check_ip(&ip);
    }

    assert_eq!(manager.tracked_ip_count(), 100);

    // Cleanup with very short TTL should evict all (they were just created)
    // Wait a tiny bit so entries are "old"
    wait_ms(10);
    let evicted = manager.cleanup_stale_ips(Duration::from_millis(5));
    assert_eq!(evicted, 100);
    assert_eq!(manager.tracked_ip_count(), 0);
}

#[test]
fn test_cleanup_preserves_active_ips() {
    let mut manager = RateLimitManager::new(None, Some(10));

    // Add 2 IPs
    let ip1 = "10.0.0.1";
    let ip2 = "10.0.0.2";
    manager.check_ip(ip1);
    manager.check_ip(ip2);
    assert_eq!(manager.tracked_ip_count(), 2);

    // Wait and then access only ip1
    wait_ms(20);
    manager.check_ip(ip1); // This updates last_accessed for ip1

    // Cleanup with 15ms TTL should evict ip2 (not accessed) but keep ip1
    let evicted = manager.cleanup_stale_ips(Duration::from_millis(15));
    assert_eq!(evicted, 1);
    assert_eq!(manager.tracked_ip_count(), 1);
}

#[test]
fn test_rate_limit_error_display() {
    let err1 = RateLimitError::Global;
    assert_eq!(err1.message(), "Global rate limit exceeded");

    let err2 = RateLimitError::PerIp("1.2.3.4".to_string());
    assert_eq!(err2.message(), "Rate limit exceeded for IP: 1.2.3.4");

    let err3 = RateLimitError::PerUser("user123".to_string());
    assert_eq!(err3.message(), "Rate limit exceeded for user: user123");

    let err4 = RateLimitError::PerBucket("products".to_string());
    assert_eq!(err4.message(), "Rate limit exceeded for bucket: products");
}

#[test]
fn test_per_user_rate_limit_enforced() {
    let mut manager = RateLimitManager::with_user_limit(None, None, Some(3)); // 3 req/s per user

    // First 3 requests should succeed
    for i in 0..3 {
        assert!(manager.check_user("user-alice"), "Request {} should be allowed", i + 1);
    }

    // 4th request should be rate limited
    assert!(!manager.check_user("user-alice"), "4th request should be rate limited");

    // Different user should not be affected
    assert!(manager.check_user("user-bob"));
}

#[test]
fn test_per_user_limit_disabled_allows_all() {
    let mut manager = RateLimitManager::with_user_limit(None, None, None);

    // All requests should be allowed when per-user limit is not configured
    for _ in 0..100 {
        assert!(manager.check_user("any-user"));
    }
}

#[test]
fn test_check_all_with_user_enforces_user_limit() {
    let mut manager = RateLimitManager::with_user_limit(Some(100), None, Some(2)); // 2 req/s per user
    manager.add_bucket_limiter("products".to_string(), 100);

    // First 2 requests should succeed
    for _ in 0..2 {
        assert!(manager
            .check_all_with_user("products", None, Some("user-charlie"))
            .is_ok());
    }

    // 3rd request should fail due to user limit
    let result = manager.check_all_with_user("products", None, Some("user-charlie"));
    assert!(result.is_err());
    assert_eq!(
        result.unwrap_err(),
        RateLimitError::PerUser("user-charlie".to_string())
    );
}

#[test]
fn test_check_all_with_user_no_user_bypasses_user_limit() {
    let mut manager = RateLimitManager::with_user_limit(None, None, Some(1));

    // Without user_id, per-user limit should not apply
    for _ in 0..10 {
        assert!(manager.check_all_with_user("bucket", None, None).is_ok());
    }
}

#[test]
fn test_tracked_user_count() {
    let mut manager = RateLimitManager::with_user_limit(None, None, Some(10));

    assert_eq!(manager.tracked_user_count(), 0);

    manager.check_user("user1");
    assert_eq!(manager.tracked_user_count(), 1);

    manager.check_user("user2");
    assert_eq!(manager.tracked_user_count(), 2);

    manager.check_user("user1"); // Same user, no new entry
    assert_eq!(manager.tracked_user_count(), 2);
}

#[test]
fn test_cleanup_stale_users() {
    let mut manager = RateLimitManager::with_user_limit(None, None, Some(100));

    // Add many users
    for i in 0..100 {
        manager.check_user(&format!("user-{}", i));
    }
    assert_eq!(manager.tracked_user_count(), 100);

    // Cleanup with very short TTL should evict all
    wait_ms(10);
    let evicted = manager.cleanup_stale_users(Duration::from_millis(5));
    assert_eq!(evicted, 100);
    assert_eq!(manager.tracked_user_count(), 0);
}

#[test]
fn test_cleanup_preserves_active_users() {
    let mut manager = RateLimitManager::with_user_limit(None, None, Some(10));

    // Add 2 users
    manager.check_user("alice");
    manager.check_user("bob");
    assert_eq!(manager.tracked_user_count(), 2);

    // Wait and then access only alice
    wait_ms(20);
    manager.check_user("alice"); // This updates last_accessed for alice

    // Cleanup with 15ms TTL should evict bob (not accessed) but keep alice
    let evicted = manager.cleanup_stale_users(Duration::from_millis(15));
    assert_eq!(evicted, 1);
    assert_eq!(manager.tracked_user_count(), 1);
}

#[test]
fn test_user_rate_limit_with_ip_and_bucket() {
    // Test that all limits work together
    let mut manager = RateLimitManager::with_user_limit(Some(100), Some(100), Some(2));
    manager.add_bucket_limiter("api".to_string(), 100);

    let ip = "10.0.0.1";

    // Per-user limit should be the bottleneck
    for _ in 0..2 {
        assert!(manager
            .check_all_with_user("api", Some(ip), Some("limited-user"))
            .is_ok());
    }

    // 3rd request should fail due to user limit
    let result = manager.check_all_with_user("api", Some(ip), Some("limited-user"));
    assert!(result.is_err());
    assert_eq!(
        result.unwrap_err(),
        RateLimitError::PerUser("limited-user".to_string())
    );

    // Different user should still work
    assert!(manager
        .check_all_with_user("api", Some(ip), Some("other-user"))
        .is_ok());
}

// Checks at chosen instants, and the cleanup that follows from them.

#[test]
fn test_check_ip_at_records_last_use() {
    let mut manager = RateLimitManager::new(None, Some(10));
    assert!(manager.check_ip_at("10.0.0.1", 1_000));
    assert!(manager.check_ip_at("10.0.0.2", 2_000));
    assert!(manager.check_ip_at("10.0.0.1", 3_000));
    assert_eq!(manager.tracked_ip_count(), 2);

    // At 4000 with a ttl of 1500, 10.0.0.2 (idle 2000) goes, 10.0.0.1 (idle 1000) stays.
    assert_eq!(manager.cleanup_stale_ips_at(4_000, 1_500), 1);
    assert_eq!(manager.tracked_ip_count(), 1);
    // An idle time equal to the ttl is stale.
    assert_eq!(manager.cleanup_stale_ips_at(4_500, 1_500), 1);
    assert_eq!(manager.tracked_ip_count(), 0);
}

#[test]
fn test_check_user_at_and_cleanup() {
    let mut manager = RateLimitManager::with_user_limit(None, None, Some(5));
    manager.check_user_at("alice", 100);
    manager.check_user_at("bob", 200);
    assert_eq!(manager.cleanup_stale_users_at(250, 100), 1);
    assert_eq!(manager.tracked_user_count(), 1);
    assert_eq!(manager.cleanup_stale_users_at(250, 10), 1);
    assert_eq!(manager.tracked_user_count(), 0);
}

#[test]
fn test_cleanup_without_per_ip_limit_evicts_nothing() {
    let mut manager = RateLimitManager::new(Some(10), None);
    assert!(manager.check_ip("10.0.0.1"));
    assert_eq!(manager.tracked_ip_count(), 0);
    assert_eq!(manager.cleanup_stale_ips_at(u128::MAX, 0), 0);
}

#[test]
fn test_cleanup_cycle_uses_idle_ttl() {
    let mut manager = RateLimitManager::with_user_limit(None, Some(10), Some(10));
    assert_eq!(manager.idle_ttl(), Duration::from_secs(300));
    let minute: u128 = 60_000_000_000;
    manager.check_ip_at("10.0.0.1", 0);
    manager.check_ip_at("10.0.0.2", 4 * minute);
    manager.check_user_at("alice", minute);
    // Five minutes after the start: the first address has been idle for the whole idle time.
    assert_eq!(manager.cleanup_cycle_at(5 * minute), (1, 0));
    assert_eq!(manager.tracked_ip_count(), 1);
    assert_eq!(manager.tracked_user_count(), 1);
    assert_eq!(manager.cleanup_cycle_at(10 * minute), (1, 1));
    assert_eq!(manager.tracked_ip_count(), 0);
    assert_eq!(manager.tracked_user_count(), 0);
}

#[test]
fn test_run_cleanup_cycle_keeps_fresh_limiters() {
    let mut manager = RateLimitManager::with_user_limit(None, Some(10), Some(10));
    manager.check_ip("10.0.0.1");
    manager.check_user("alice");
    assert_eq!(manager.run_cleanup_cycle(), (0, 0));
    assert_eq!(manager.tracked_ip_count(), 1);
    assert_eq!(manager.tracked_user_count(), 1);
}

#[test]
fn test_global_refusal_comes_first() {
    let mut manager = RateLimitManager::with_user_limit(Some(1), Some(10), Some(10));
    assert!(manager.check_all_with_user("b", Some("10.0.0.1"), Some("alice")).is_ok());
    assert_eq!(manager.tracked_ip_count(), 1);
    let refused = manager.check_all_with_user("b", Some("10.0.0.9"), Some("bob"));
    assert_eq!(refused, Err(RateLimitError::Global));
    // The refused request reached no later stage.
    assert_eq!(manager.tracked_ip_count(), 1);
    assert_eq!(manager.tracked_user_count(), 1);
}

#[test]
fn test_per_ip_refusal_names_the_address() {
    let mut manager = RateLimitManager::new(None, Some(1));
    assert!(manager.check_all("b", Some("10.0.0.7")).is_ok());
    assert_eq!(
        manager.check_all("b", Some("10.0.0.7")),
        Err(RateLimitError::PerIp("10.0.0.7".to_string()))
    );
    assert!(manager.check_all("b", Some("10.0.0.8")).is_ok());
    assert!(manager.check_all("b", None).is_ok());
}

#[test]
fn test_replacing_a_bucket_limiter_keeps_one_entry() {
    let mut manager = RateLimitManager::new(None, None);
    manager.add_bucket_limiter("products".to_string(), 1);
    manager.add_bucket_limiter("products".to_string(), 2);
    manager.add_bucket_limiter("ignored".to_string(), 0);
    assert_eq!(manager.tracked_bucket_count(), 1);
    assert!(manager.check_bucket("products"));
    assert!(manager.check_bucket("products"));
    assert!(!manager.check_bucket("products"));
    assert!(manager.check_bucket("ignored"));
}

#[test]
fn test_ip_limiters_are_capped() {
    let mut manager = RateLimitManager::new(None, Some(10));
    for i in 0..100_000u32 {
        let ip = format!("10.{}.{}.{}", i >> 16, (i >> 8) & 0xff, i & 0xff);
        manager.check_ip_at(&ip, 0);
    }
    assert_eq!(manager.tracked_ip_count(), 100_000);
    // At the cap, any use drops every limiter first, even that of a known address.
    manager.check_ip_at("10.0.0.0", 1);
    assert_eq!(manager.tracked_ip_count(), 1);
    manager.check_ip_at("192.168.0.1", 2);
    assert_eq!(manager.tracked_ip_count(), 2);
}

#[test]
fn test_first_refusal_order() {
    assert_eq!(first_refusal(true, None, None, "b", true), Ok(()));
    assert_eq!(
        first_refusal(false, Some(("1.2.3.4", false)), Some(("u", false)), "b", false),
        Err(RateLimitError::Global)
    );
    assert_eq!(
        first_refusal(true, Some(("1.2.3.4", false)), Some(("u", false)), "b", false),
        Err(RateLimitError::PerIp("1.2.3.4".to_string()))
    );
    assert_eq!(
        first_refusal(true, Some(("1.2.3.4", true)), Some(("u", false)), "b", false),
        Err(RateLimitError::PerUser("u".to_string()))
    );
    assert_eq!(
        first_refusal(true, Some(("1.2.3.4", true)), None, "b", false),
        Err(RateLimitError::PerBucket("b".to_string()))
    );
    assert_eq!(first_refusal(true, Some(("1.2.3.4", true)), Some(("u", true)), "b", true), Ok(()));
}

#[test]
fn test_refused_user_decides_before_bucket() {
    let mut manager = RateLimitManager::with_user_limit(None, None, Some(1));
    manager.add_bucket_limiter("b".to_string(), 1);
    assert!(manager.check_all_with_user("b", None, Some("u")).is_ok());
    // The user is over its limit; the bucket is not asked.
    assert_eq!(
        manager.check_all_with_user("c", None, Some("u")),
        Err(RateLimitError::PerUser("u".to_string()))
    );
    // The bucket limiter of "b" has answered once only, so another user still gets refused by it.
    assert_eq!(
        manager.check_all_with_user("b", None, Some("v")),
        Err(RateLimitError::PerBucket("b".to_string()))
    );
}
