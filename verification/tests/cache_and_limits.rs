use kodegen_github::cache::{is_expired, SearchCache};
use kodegen_github::rate_limiter::{admit_search, reported_reset_time, Pacing, RateLimiter};
use kodegen_github::ratio::Ratio;
use kodegen_github::results::RepositoryResult;
use kodegen_github::scoring::QualityMetrics;
use kodegen_github::search::{cache_results, SearchError};

fn r(n: u64, d: u64) -> Ratio {
    Ratio { num: n, den: d }
}

fn result(name: &str, stars: u32) -> RepositoryResult {
    RepositoryResult {
        name: name.to_string(),
        full_name: format!("owner/{name}"),
        url: String::new(),
        clone_url: String::new(),
        description: None,
        stars,
        forks: 0,
        watchers: 0,
        language: None,
        topics: vec![],
        license: None,
        created_at: 0,
        updated_at: 0,
        pushed_at: 0,
        size_kb: 0,
        quality_metrics: QualityMetrics {
            overall_score: r(0, 1),
            api_score: r(0, 10),
            local_score: r(3, 10),
            popularity_score: r(0, 1),
            maintenance_score: r(0, 1),
            documentation_score: r(0, 1),
            security_score: r(1, 2),
        },
        activity_metrics: None,
        local_metrics: None,
        errors: vec![],
    }
}

#[test]
fn stored_result_is_served_at_its_commit() {
    let mut c = SearchCache::new(10, 3600);
    c.put("owner/a".to_string(), result("a", 5), "abc".to_string(), 1000);
    let got = c.get_if_valid("owner/a", "abc", 2000).unwrap();
    assert_eq!(got.name, "a");
    assert_eq!(got.stars, 5);
    assert_eq!(c.cache_stats(), (1, 0));
}

#[test]
fn another_commit_is_a_miss() {
    let mut c = SearchCache::new(10, 3600);
    c.put("owner/a".to_string(), result("a", 5), "abc".to_string(), 1000);
    assert!(c.get_if_valid("owner/a", "def", 1001).is_none());
    assert_eq!(c.cache_stats(), (0, 1));
}

#[test]
fn unknown_key_is_a_miss() {
    let mut c = SearchCache::new(10, 3600);
    assert!(c.get_if_valid("nobody/none", "", 0).is_none());
    assert_eq!(c.cache_stats(), (0, 1));
}

#[test]
fn entries_expire_after_the_time_to_live() {
    let mut c = SearchCache::new(10, 3600);
    c.put("owner/a".to_string(), result("a", 1), "s".to_string(), 1000);
    // Exactly the time to live later is still fresh.
    assert!(c.get_if_valid("owner/a", "s", 4600).is_some());
    // One second more and it has expired.
    assert!(c.get_if_valid("owner/a", "s", 4601).is_none());
    assert_eq!(c.cache_stats(), (1, 1));
}

#[test]
fn expiry_rule() {
    assert!(!is_expired(100, 200, 100));
    assert!(is_expired(100, 201, 100));
    assert!(!is_expired(500, 100, 0));
    // A time to live beyond what chrono holds counts as zero.
    assert!(is_expired(0, 1, u64::MAX));
}

#[test]
fn least_recently_used_entry_is_evicted() {
    let mut c = SearchCache::new(2, 3600);
    c.put("a".to_string(), result("a", 1), "s".to_string(), 0);
    c.put("b".to_string(), result("b", 2), "s".to_string(), 0);
    // Using "a" makes "b" the least recently used.
    assert!(c.get_if_valid("a", "s", 1).is_some());
    c.put("c".to_string(), result("c", 3), "s".to_string(), 0);
    assert!(c.get_if_valid("b", "s", 1).is_none());
    assert!(c.get_if_valid("a", "s", 1).is_some());
    assert!(c.get_if_valid("c", "s", 1).is_some());
}

#[test]
fn zero_capacity_holds_one() {
    let mut c = SearchCache::new(0, 3600);
    c.put("a".to_string(), result("a", 1), "s".to_string(), 0);
    assert!(c.get_if_valid("a", "s", 0).is_some());
    c.put("b".to_string(), result("b", 1), "s".to_string(), 0);
    assert!(c.get_if_valid("a", "s", 0).is_none());
}

#[test]
fn storing_again_replaces() {
    let mut c = SearchCache::new(4, 3600);
    c.put("a".to_string(), result("a", 1), "old".to_string(), 0);
    c.put("a".to_string(), result("a", 9), "new".to_string(), 0);
    assert!(c.get_if_valid("a", "old", 0).is_none());
    assert_eq!(c.get_if_valid("a", "new", 0).unwrap().stars, 9);
}

#[test]
fn cleanup_removes_only_expired_entries() {
    let mut c = SearchCache::new(10, 100);
    c.put("old".to_string(), result("old", 1), "s".to_string(), 0);
    c.put("new".to_string(), result("new", 2), "s".to_string(), 150);
    c.cleanup_expired(200);
    assert_eq!(c.cache_stats(), (0, 0));
    // The fresh entry stays; the expired one is gone even for a lookup
    // that would otherwise accept it.
    assert!(c.get_if_valid("new", "s", 200).is_some());
    assert!(c.get_if_valid("old", "s", 0).is_none());
}

#[test]
fn results_are_cached_under_their_full_names() {
    let mut c = SearchCache::new(10, 3600);
    let results = vec![result("a", 1), result("b", 2)];
    cache_results(&mut c, results.clone(), 100);
    // Without activity the cached commit is empty.
    let b = c.get_if_valid("owner/b", "", 100).unwrap();
    assert_eq!(b.stars, 2);
    assert_eq!(b.full_name, results[1].full_name);
    assert!(c.get_if_valid("owner/a", "x", 100).is_none());
}

#[test]
fn fresh_window() {
    let l = RateLimiter::new(1000);
    assert_eq!(l.remaining, 5000);
    assert_eq!(l.reset_time, 4600);
    assert_eq!(l.last_check, 1000);
}

#[test]
fn requests_allowed_while_some_remain_or_after_reset() {
    let mut l = RateLimiter::new(0);
    l.update(0, 100, 5);
    assert_eq!(l.remaining, 0);
    assert_eq!(l.last_check, 5);
    assert!(!l.can_make_request(100));
    assert!(l.can_make_request(101));
    l.update(1, 100, 6);
    assert!(l.can_make_request(50));
}

#[test]
fn passed_window_is_renewed() {
    let mut l = RateLimiter { remaining: 3, reset_time: 100, last_check: 0 };
    l.check_and_reset_if_expired(100);
    assert_eq!(l.remaining, 3);
    l.check_and_reset_if_expired(101);
    assert_eq!(l.remaining, 5000);
    assert_eq!(l.reset_time, 3701);
    assert_eq!(l.last_check, 101);
}

#[test]
fn pacing_near_the_limit() {
    let l = RateLimiter { remaining: 50, reset_time: 1000, last_check: 0 };
    // Above the reserve: go ahead.
    assert_eq!(l.wait_if_needed(10, 900).ok(), Some(Pacing::Proceed));
    // Within the reserve, reset 100 s away: wait for it.
    assert_eq!(l.wait_if_needed(100, 900).ok(), Some(Pacing::Wait(100)));
    // Exactly five minutes is still a wait.
    assert_eq!(l.wait_if_needed(100, 700).ok(), Some(Pacing::Wait(300)));
    // Further away: give up.
    match l.wait_if_needed(100, 699) {
        Err(SearchError::RateLimitExceeded { remaining, reset_time }) => {
            assert_eq!(remaining, 50);
            assert_eq!(reset_time, 1000);
        }
        other => panic!("unexpected {other:?}"),
    }
    // After the reset time no wait is needed.
    assert_eq!(l.wait_if_needed(100, 1000).ok(), Some(Pacing::Proceed));
}

#[test]
fn admission_refuses_without_requests() {
    let mut l = RateLimiter { remaining: 0, reset_time: 5000, last_check: 0 };
    match admit_search(&mut l, 100, 4000) {
        Err(SearchError::RateLimitExceeded { remaining, reset_time }) => {
            assert_eq!(remaining, 0);
            assert_eq!(reset_time, 5000);
        }
        other => panic!("unexpected {other:?}"),
    }
}

#[test]
fn admission_after_reset_proceeds() {
    let mut l = RateLimiter { remaining: 0, reset_time: 5000, last_check: 0 };
    assert_eq!(admit_search(&mut l, 100, 5001).ok(), Some(Pacing::Proceed));
    assert_eq!(l.remaining, 5000);
    assert_eq!(l.reset_time, 8601);
}

#[test]
fn reported_reset_times() {
    assert_eq!(reported_reset_time(1_700_000_000, 10), 1_700_000_000);
    // A time chrono cannot represent falls back to an hour from now.
    assert_eq!(reported_reset_time(i64::MAX, 10), 3610);
}
