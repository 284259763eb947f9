use kodegen_github::search::{
    compose_search_terms, decimal_text, join_terms, no_results_error, search_output,
    search_terms, take_first, top_repositories, SearchConfig, SearchError, SearchQuery,
};

fn query(terms: &[&str]) -> SearchQuery {
    SearchQuery {
        terms: terms.iter().map(|t| t.to_string()).collect(),
        ..SearchQuery::default()
    }
}

#[test]
fn config_defaults() {
    let c = SearchConfig::default();
    assert_eq!(c.cache_capacity, 1000);
    assert_eq!(c.concurrency_limit, 10);
    assert_eq!(c.max_file_size, 10_485_760);
    assert_eq!(c.max_repo_size, 1_073_741_824);
    assert_eq!(c.fetch_timeout, 30);
    assert_eq!(c.api_timeout, 10);
    assert_eq!(c.rate_limit_buffer, 100);
    assert_eq!(c.cache_ttl, 3600);
    assert_eq!(c.api_page_size, 100);
}

#[test]
fn decimal_numbers() {
    assert_eq!(decimal_text(0), "0");
    assert_eq!(decimal_text(7), "7");
    assert_eq!(decimal_text(100), "100");
    assert_eq!(decimal_text(u64::MAX), "18446744073709551615");
}

#[test]
fn terms_join_with_spaces() {
    assert_eq!(join_terms(&vec![]), "");
    assert_eq!(join_terms(&vec!["rust".to_string()]), "rust");
    assert_eq!(
        join_terms(&vec!["rust".to_string(), "web".to_string(), "async".to_string()]),
        "rust web async"
    );
}

#[test]
fn terms_alone() {
    let q = query(&["rust", "web"]);
    assert_eq!(compose_search_terms(&q, None, None), "rust web");
}

#[test]
fn every_filter_in_order() {
    let q = SearchQuery {
        terms: vec!["cli".to_string()],
        language: Some("Rust".to_string()),
        min_stars: 100,
        license: Some("mit".to_string()),
        created_after: None,
        pushed_after: None,
        topic: Some("async".to_string()),
        user: Some("octocat".to_string()),
        org: Some("github".to_string()),
        exclude_forks: true,
        exclude_archived: true,
    };
    assert_eq!(
        compose_search_terms(&q, Some("2024-01-02"), Some("2024-03-04")),
        "cli language:Rust license:mit stars:>=100 created:>2024-01-02 pushed:>2024-03-04 topic:async user:octocat org:github fork:false archived:false"
    );
}

#[test]
fn zero_stars_adds_no_filter() {
    let mut q = query(&["x"]);
    q.min_stars = 0;
    q.exclude_archived = true;
    assert_eq!(compose_search_terms(&q, None, None), "x archived:false");
}

#[test]
fn dates_are_formatted_as_calendar_days() {
    let mut q = query(&["rust"]);
    // 2024-01-15 12:30:00 UTC and 2023-06-01 00:00:00 UTC
    q.created_after = Some(1_705_321_800);
    q.pushed_after = Some(1_685_577_600);
    assert_eq!(
        search_terms(&q),
        "rust created:>2024-01-15 pushed:>2023-06-01"
    );
}

#[test]
fn search_text_without_dates() {
    let mut q = query(&["a", "b"]);
    q.language = Some("Go".to_string());
    assert_eq!(search_terms(&q), "a b language:Go");
}

#[test]
fn no_results_names_the_terms() {
    let q = query(&["rust", "web"]);
    match no_results_error(&q) {
        SearchError::NoResults { query } => assert_eq!(query, "rust web"),
        e => panic!("unexpected {e:?}"),
    }
}

#[test]
fn at_most_ten_repositories_are_analysed() {
    let repos: Vec<u32> = (0..25).collect();
    assert_eq!(top_repositories(repos), (0..10).collect::<Vec<u32>>());
    assert_eq!(top_repositories(vec![1, 2, 3]), vec![1, 2, 3]);
    assert_eq!(take_first(vec![5, 6], 0), Vec::<i32>::new());
}

#[test]
fn output_without_errors_is_a_success() {
    let o = search_output(vec![], vec![], 42, 3, 1, 17, 4999);
    assert_eq!(o.status, "success");
    assert!(!o.metadata.partial_results);
    assert_eq!(o.metadata.total_results, 42);
    assert_eq!(o.metadata.cache_hit_rate.num, 3);
    assert_eq!(o.metadata.cache_hit_rate.den, 4);
    assert_eq!(o.metadata.cache_hits, 3);
    assert_eq!(o.metadata.cache_misses, 1);
    assert_eq!(o.metadata.processing_time_ms, 17);
    assert_eq!(o.metadata.api_rate_limit_remaining, 4999);
}

#[test]
fn output_with_errors_is_partial() {
    let o = search_output(vec![], vec!["boom".to_string()], 1, 0, 0, 5, 10);
    assert_eq!(o.status, "partial");
    assert!(o.metadata.partial_results);
    assert_eq!(o.errors, vec!["boom".to_string()]);
    assert_eq!(o.metadata.cache_hit_rate.num, 0);
}
