use indicator_sync::rate_limiter::{
    check_api_limit, next_usage_count, usage_count, RateLimitPolicy, RateLimiter,
};

#[test]
fn policies_by_provider() {
    assert_eq!(
        RateLimiter::policy("FRED"),
        RateLimitPolicy::Jitter { min_millis: 1500, max_millis: 3000 }
    );
    assert_eq!(
        RateLimiter::policy("TIINGO"),
        RateLimitPolicy::Jitter { min_millis: 1000, max_millis: 2000 }
    );
    assert_eq!(RateLimiter::policy("BINANCE"), RateLimitPolicy::Fixed { millis: 100 });
    assert_eq!(RateLimiter::policy("UPBIT"), RateLimitPolicy::Fixed { millis: 100 });
    assert_eq!(RateLimiter::policy("Default"), RateLimitPolicy::Fixed { millis: 100 });
    assert_eq!(RateLimiter::policy(""), RateLimitPolicy::Fixed { millis: 100 });
}

#[test]
fn policy_lookup_ignores_case() {
    let fred = RateLimitPolicy::Jitter { min_millis: 1500, max_millis: 3000 };
    assert_eq!(RateLimiter::policy("fred"), fred);
    assert_eq!(RateLimiter::policy("Fred"), fred);
    assert_eq!(RateLimiter::policy("fReD"), fred);
    assert_eq!(
        RateLimiter::policy("Tiingo"),
        RateLimitPolicy::Jitter { min_millis: 1000, max_millis: 2000 }
    );
    assert_eq!(RateLimiter::policy("FRED "), RateLimitPolicy::Fixed { millis: 100 });
}

#[test]
fn policy_for_key_takes_the_key_as_it_is() {
    assert_eq!(
        RateLimiter::policy_for_key("FRED"),
        RateLimitPolicy::Jitter { min_millis: 1500, max_millis: 3000 }
    );
    assert_eq!(RateLimiter::policy_for_key("fred"), RateLimitPolicy::Fixed { millis: 100 });
    assert_eq!(RateLimiter::policy_for_key("Tiingo"), RateLimitPolicy::Fixed { millis: 100 });
}

#[test]
fn jittered_delays_stay_in_range_and_vary() {
    let mut seen = Vec::new();
    for _ in 0..300 {
        let delay = RateLimiter::delay_millis("fred");
        assert!((1500..3000).contains(&delay));
        seen.push(delay);
    }
    assert!(seen.iter().any(|d| *d != seen[0]));
    assert!(seen.iter().any(|d| *d != 1500));
    for _ in 0..300 {
        let delay = RateLimiter::delay_millis("Tiingo");
        assert!((1000..2000).contains(&delay));
    }
}

#[test]
fn fixed_delays_are_fixed() {
    for _ in 0..20 {
        assert_eq!(RateLimiter::delay_millis("binance"), 100);
        assert_eq!(RateLimiter::delay_millis("Calculated"), 100);
    }
    assert_eq!(RateLimiter::draw(RateLimitPolicy::Fixed { millis: 7 }), 7);
}

#[test]
fn narrow_and_empty_jitter_ranges() {
    assert_eq!(RateLimiter::draw(RateLimitPolicy::Jitter { min_millis: 5, max_millis: 6 }), 5);
    assert_eq!(RateLimiter::draw(RateLimitPolicy::Jitter { min_millis: 5, max_millis: 5 }), 5);
    assert_eq!(RateLimiter::draw(RateLimitPolicy::Jitter { min_millis: 9, max_millis: 2 }), 9);
    let top = RateLimiter::draw(RateLimitPolicy::Jitter { min_millis: u64::MAX - 1, max_millis: u64::MAX });
    assert_eq!(top, u64::MAX - 1);
}

#[test]
fn usage_counters_are_read_or_count_as_nothing() {
    assert_eq!(usage_count(Some("17")), 17);
    assert_eq!(usage_count(Some("0")), 0);
    assert_eq!(usage_count(Some("")), 0);
    assert_eq!(usage_count(Some("many")), 0);
    assert_eq!(usage_count(Some("-3")), -3);
    assert_eq!(usage_count(None), 0);
}

#[test]
fn requests_are_allowed_below_the_limit() {
    assert!(check_api_limit(Some("449"), 450));
    assert!(!check_api_limit(Some("450"), 450));
    assert!(!check_api_limit(Some("451"), 450));
    assert!(check_api_limit(Some("garbled"), 450));
    assert!(!check_api_limit(Some("garbled"), 0));
    assert!(check_api_limit(None, 450));
    assert!(check_api_limit(None, 0));
    assert!(check_api_limit(None, -5));
}

#[test]
fn usage_counts_go_up_by_one() {
    assert_eq!(next_usage_count(None), 1);
    assert_eq!(next_usage_count(Some("1")), 2);
    assert_eq!(next_usage_count(Some("449")), 450);
    assert_eq!(next_usage_count(Some("garbled")), 1);
    assert_eq!(next_usage_count(Some("-1")), 0);
    assert_eq!(next_usage_count(Some("9223372036854775806")), i64::MAX);
    assert_eq!(next_usage_count(Some("9223372036854775807")), i64::MAX);
}
