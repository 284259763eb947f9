use kodegen_github::activity::{
    compute_activity, count_recent_emails, frequency_of_releases, CommitInfo, IssueInfo,
    ReleaseInfo,
};
use kodegen_github::analysis::{
    after_clone, after_collection, before_clone, latest_commit_sha, partition_analyses,
    record_rate_limit, search_timeout_error, CloneOutcome,
};
use kodegen_github::rate_limiter::RateLimiter;
use kodegen_github::ratio::Ratio;
use kodegen_github::scoring::{
    build_status, compute_api_metrics, exceeds_repo_size, fallback_local_scores, quality_metrics,
    query_build_status, LatestRun, LocalScores, RepoFacts,
};
use kodegen_github::search::SearchError;

const DAY: i64 = 86400;
const NOW: i64 = 1_700_000_000;

fn commit(sha: &str, days_ago: Option<i64>, email: Option<&str>) -> CommitInfo {
    CommitInfo {
        sha: sha.to_string(),
        date: days_ago.map(|d| NOW - d * DAY),
        email: email.map(|e| e.to_string()),
    }
}

fn release(tag: &str, days_ago: i64) -> ReleaseInfo {
    ReleaseInfo { tag_name: tag.to_string(), created_at: Some(NOW - days_ago * DAY), published_at: None }
}

#[test]
fn no_commits_no_activity() {
    assert!(compute_activity(&vec![], NOW, Some(3), None, None, None).is_none());
}

#[test]
fn commit_windows_and_contributors() {
    let commits = vec![
        commit("c1", Some(1), Some("a@x")),
        commit("c2", Some(10), Some("b@x")),
        commit("c3", Some(20), Some("a@x")),
        commit("c4", Some(100), Some("c@x")),
        commit("c5", Some(200), None),
        commit("c6", Some(400), Some("d@x")),
        commit("c7", None, Some("e@x")),
    ];
    let merged = vec![Some(NOW - 5 * DAY), None, Some(NOW - 40 * DAY)];
    let issues = vec![
        IssueInfo { is_pull_request: false, closed_at: Some(NOW - DAY) },
        IssueInfo { is_pull_request: true, closed_at: Some(NOW - DAY) },
        IssueInfo { is_pull_request: false, closed_at: None },
        IssueInfo { is_pull_request: false, closed_at: Some(NOW - 31 * DAY) },
    ];
    let m = compute_activity(&commits, NOW, Some(12), Some(merged), Some(issues), Some(vec![]))
        .unwrap();
    assert_eq!(m.commits_last_month, 3);
    assert_eq!(m.commits_last_6_months, 4);
    assert_eq!(m.commits_last_year, 5);
    assert_eq!(m.active_contributors_last_3_months, 2);
    assert_eq!(m.last_commit, "c1");
    assert_eq!(m.last_commit_date, NOW - DAY);
    assert_eq!(m.contributors_count, 12);
    assert_eq!(m.pull_requests_merged_last_month, 1);
    assert_eq!(m.issues_closed_last_month, 1);
    assert_eq!(m.release_frequency, "none");
    assert_eq!(m.latest_release, None);
}

#[test]
fn failed_requests_fall_back() {
    let commits = vec![commit("head", None, None)];
    let m = compute_activity(&commits, NOW, None, None, None, None).unwrap();
    assert_eq!(m.contributors_count, 1);
    assert_eq!(m.pull_requests_merged_last_month, 0);
    assert_eq!(m.issues_closed_last_month, 0);
    assert_eq!(m.release_frequency, "unknown");
    assert_eq!(m.latest_release, None);
    // Without a date the last commit is dated now.
    assert_eq!(m.last_commit_date, NOW);
}

#[test]
fn window_boundary_is_exclusive() {
    let commits = vec![commit("a", Some(30), None), commit("b", Some(29), None)];
    let m = compute_activity(&commits, NOW, Some(1), None, None, None).unwrap();
    assert_eq!(m.commits_last_month, 1);
}

#[test]
fn distinct_recent_emails() {
    let commits = vec![
        commit("1", Some(1), Some("a@x")),
        commit("2", Some(2), Some("a@x")),
        commit("3", Some(3), Some("b@x")),
        commit("4", Some(95), Some("c@x")),
    ];
    assert_eq!(count_recent_emails(&commits, (NOW - 90 * DAY) as i128), 2);
}

#[test]
fn release_frequencies() {
    assert_eq!(frequency_of_releases(&vec![], NOW), "none");
    assert_eq!(frequency_of_releases(&vec![release("v1", 0)], NOW), "single");
    // Three releases over 40 days: 20 days apart on average.
    let monthly = vec![release("v3", 0), release("v2", 20), release("v1", 40)];
    assert_eq!(frequency_of_releases(&monthly, NOW), "monthly");
    let quarterly = vec![release("v2", 0), release("v1", 60)];
    assert_eq!(frequency_of_releases(&quarterly, NOW), "quarterly");
    let biannual = vec![release("v2", 0), release("v1", 90)];
    assert_eq!(frequency_of_releases(&biannual, NOW), "biannual");
    let annual = vec![release("v2", 0), release("v1", 180)];
    assert_eq!(frequency_of_releases(&annual, NOW), "annual");
}

#[test]
fn release_times_fall_back_to_publication_then_now() {
    let rs = vec![
        ReleaseInfo { tag_name: "v2".to_string(), created_at: None, published_at: None },
        ReleaseInfo { tag_name: "v1".to_string(), created_at: None, published_at: Some(NOW - 200 * DAY) },
    ];
    assert_eq!(frequency_of_releases(&rs, NOW), "annual");
    let m = compute_activity(&vec![commit("x", Some(1), None)], NOW, Some(1), None, None, Some(rs))
        .unwrap();
    assert_eq!(m.latest_release, Some("v2".to_string()));
    assert_eq!(m.release_frequency, "annual");
}

#[test]
fn api_score_points() {
    let facts = RepoFacts {
        stars: Some(1500),
        forks: Some(150),
        has_license: true,
        has_description: true,
        topics: Some(vec!["cli".to_string()]),
    };
    // 3 + 2 + 2 + 1 + 1 + 1 = 10 tenths.
    assert_eq!(compute_api_metrics(&facts, Some(4)), Ratio { num: 10, den: 10 });
    // Without recent commits: 8 tenths.
    assert_eq!(compute_api_metrics(&facts, Some(0)), Ratio { num: 8, den: 10 });
    assert_eq!(compute_api_metrics(&facts, None), Ratio { num: 8, den: 10 });
    let small = RepoFacts {
        stars: Some(11),
        forks: Some(11),
        has_license: false,
        has_description: false,
        topics: Some(vec![]),
    };
    assert_eq!(compute_api_metrics(&small, None), Ratio { num: 2, den: 10 });
    let bare = RepoFacts { stars: None, forks: None, has_license: false, has_description: false, topics: None };
    assert_eq!(compute_api_metrics(&bare, None), Ratio { num: 0, den: 10 });
    let mid = RepoFacts { stars: Some(101), forks: Some(10), has_license: false, has_description: true, topics: None };
    assert_eq!(compute_api_metrics(&mid, None), Ratio { num: 3, den: 10 });
}

#[test]
fn build_statuses() {
    assert_eq!(query_build_status(&LatestRun::Unavailable), "unknown");
    assert_eq!(query_build_status(&LatestRun::NoRuns), "no_runs");
    assert_eq!(query_build_status(&LatestRun::Running), "pending");
    assert_eq!(query_build_status(&LatestRun::Concluded("SUCCESS".to_string())), "success");
    assert_eq!(query_build_status(&LatestRun::Concluded("Failure".to_string())), "failure");
    assert_eq!(build_status(false, &LatestRun::Running), "no_ci");
    assert_eq!(build_status(true, &LatestRun::Running), "pending");
}

#[test]
fn repository_size_limit() {
    assert!(!exceeds_repo_size(Some(1024), 1024 * 1024));
    assert!(exceeds_repo_size(Some(1025), 1024 * 1024));
    assert!(!exceeds_repo_size(None, 0));
    assert!(exceeds_repo_size(Some(u32::MAX), 1_073_741_824));
}

#[test]
fn oversized_repository_gets_the_fallback() {
    let s = before_clone(Some(2_000_000), 1_073_741_824).unwrap();
    assert_eq!(s.overall_local, Ratio { num: 3, den: 10 });
    assert_eq!(s.readme_score, Ratio { num: 0, den: 1 });
    assert!(s.metrics.is_none());
    assert!(before_clone(Some(10), 1_073_741_824).is_none());
}

#[test]
fn clone_outcomes() {
    match after_clone(CloneOutcome::TimedOut, "owner/repo", 30) {
        Some(Err(SearchError::TimeoutError { operation, duration })) => {
            assert_eq!(operation, "git_clone_owner/repo");
            assert_eq!(duration, 30);
        }
        _ => panic!("expected a timeout"),
    }
    match after_clone(CloneOutcome::Failed, "r", 30) {
        Some(Ok(s)) => assert_eq!(s.overall_local, Ratio { num: 3, den: 10 }),
        _ => panic!("expected the fallback"),
    }
    assert!(after_clone(CloneOutcome::Cloned, "r", 30).is_none());
    assert_eq!(after_collection(None).coverage_score, Ratio { num: 0, den: 1 });
}

#[test]
fn combined_quality_scores() {
    let local = LocalScores {
        overall_local: Ratio { num: 130, den: 200 },
        readme_score: Ratio { num: 80, den: 100 },
        coverage_score: Ratio { num: 5, den: 10 },
        metrics: None,
    };
    let q = quality_metrics(Ratio { num: 6, den: 10 }, &local);
    // 0.7 * 0.6 + 0.3 * 0.65 = 0.615
    assert_eq!(q.overall_score.num * 1000, 615 * q.overall_score.den);
    assert_eq!(q.api_score, Ratio { num: 6, den: 10 });
    assert_eq!(q.local_score, Ratio { num: 130, den: 200 });
    assert_eq!(q.popularity_score, Ratio { num: 80, den: 100 });
    assert_eq!(q.documentation_score, Ratio { num: 80, den: 100 });
    assert_eq!(q.maintenance_score, Ratio { num: 5, den: 10 });
    assert_eq!(q.security_score, Ratio { num: 1, den: 2 });
    let fb = quality_metrics(Ratio { num: 10, den: 10 }, &fallback_local_scores());
    // 0.7 + 0.09 = 0.79
    assert_eq!(fb.overall_score.num * 100, 79 * fb.overall_score.den);
}

#[test]
fn latest_sha_defaults_to_empty() {
    assert_eq!(latest_commit_sha(Some(&"abc".to_string())), "abc");
    assert_eq!(latest_commit_sha(None), "");
}

#[test]
fn search_timeout() {
    match search_timeout_error(10) {
        SearchError::TimeoutError { operation, duration } => {
            assert_eq!(operation, "repository_search");
            assert_eq!(duration, 10);
        }
        e => panic!("unexpected {e:?}"),
    }
}

#[test]
fn rate_limit_reports() {
    let mut l = RateLimiter::new(100);
    assert_eq!(record_rate_limit(&mut l, Some((29, 1_700_000_060)), 200), 29);
    assert_eq!(l.remaining, 29);
    assert_eq!(l.reset_time, 1_700_000_060);
    assert_eq!(l.last_check, 200);
    assert_eq!(record_rate_limit(&mut l, None, 300), 5000);
    assert_eq!(l.remaining, 29);
}

#[test]
fn error_messages() {
    let cases: Vec<(SearchError, &str)> = vec![
        (SearchError::ApiError("bad".to_string()), "GitHub API error: bad"),
        (SearchError::LocalAnalysisError("x".to_string()), "Local analysis error: x"),
        (
            SearchError::RateLimitExceeded { remaining: 3, reset_time: 1_700_000_000 },
            "Rate limit exceeded. Remaining: 3, Reset time: 2023-11-14 22:13:20 UTC",
        ),
        (
            SearchError::InvalidQuery { details: "d".to_string() },
            "Invalid query or missing repository info: d",
        ),
        (
            SearchError::ResourceLimitExceeded { resource: "mem".to_string(), limit: "1".to_string() },
            "Resource limit exceeded. Resource: mem, Limit: 1",
        ),
        (SearchError::NoResults { query: "q".to_string() }, "No search results found for query: q"),
        (
            SearchError::TimeoutError { operation: "op".to_string(), duration: 30 },
            "Operation timed out: op after 30s",
        ),
        (
            SearchError::TimeoutError { operation: "op".to_string(), duration: 0 },
            "Operation timed out: op after 0ns",
        ),
        (SearchError::AuthenticationError, "Authentication failed"),
        (SearchError::AccessDenied { repo: "r".to_string() }, "Access denied to repository: r"),
        (SearchError::ConfigError("c".to_string()), "Configuration error: c"),
    ];
    for (e, m) in cases {
        assert_eq!(e.message(), m);
    }
}

#[test]
fn analyses_split_into_results_and_messages() {
    let outcomes = vec![
        Err(SearchError::AuthenticationError),
        Err(SearchError::NoResults { query: "z".to_string() }),
    ];
    let (results, errors) = partition_analyses(outcomes);
    assert!(results.is_empty());
    assert_eq!(
        errors,
        vec![
            "Authentication failed".to_string(),
            "No search results found for query: z".to_string()
        ]
    );
}
