use kodegen_github::search_users::{
    user_search_request, validate_user_search, GitHubError, SearchOrder, UserSearchSort,
};

#[test]
fn sort_fields_read_as_the_api_names_them() {
    assert_eq!(UserSearchSort::Followers.as_str(), "followers");
    assert_eq!(UserSearchSort::Repositories.as_str(), "repositories");
    assert_eq!(UserSearchSort::Joined.as_str(), "joined");
}

#[test]
fn sort_orders_read_as_the_api_names_them() {
    assert_eq!(SearchOrder::Asc.as_str(), "asc");
    assert_eq!(SearchOrder::Desc.as_str(), "desc");
}

#[test]
fn empty_query_is_refused() {
    assert_eq!(
        validate_user_search("", Some(1), Some(10)),
        Err(GitHubError::InvalidInput("search query cannot be empty".to_string()))
    );
}

#[test]
fn page_zero_is_refused() {
    assert_eq!(
        validate_user_search("rust", Some(0), None),
        Err(GitHubError::InvalidInput("page must be >= 1".to_string()))
    );
}

#[test]
fn page_size_out_of_range_is_refused() {
    let msg = "per_page must be between 1 and 100".to_string();
    assert_eq!(
        validate_user_search("rust", None, Some(0)),
        Err(GitHubError::InvalidInput(msg.clone()))
    );
    assert_eq!(
        validate_user_search("rust", Some(2), Some(101)),
        Err(GitHubError::InvalidInput(msg))
    );
}

#[test]
fn query_is_checked_before_the_page() {
    assert_eq!(
        validate_user_search("", Some(0), Some(0)),
        Err(GitHubError::InvalidInput("search query cannot be empty".to_string()))
    );
}

#[test]
fn valid_parameters_pass() {
    assert_eq!(validate_user_search("location:seattle", None, None), Ok(()));
    assert_eq!(validate_user_search("rust", Some(1), Some(1)), Ok(()));
    assert_eq!(validate_user_search("rust", Some(7), Some(100)), Ok(()));
}

#[test]
fn request_carries_the_api_texts() {
    let r = user_search_request(
        "language:rust repos:>50",
        Some(UserSearchSort::Repositories),
        Some(SearchOrder::Desc),
        Some(1),
        Some(50),
    )
    .ok()
    .unwrap();
    assert_eq!(r.query, "language:rust repos:>50");
    assert_eq!(r.sort, Some("repositories"));
    assert_eq!(r.order, Some("desc"));
    assert_eq!(r.page, Some(1));
    assert_eq!(r.per_page, Some(50));
}

#[test]
fn request_without_options_sets_none() {
    let r = user_search_request("octocat", None, None, None, None).ok().unwrap();
    assert_eq!(r.sort, None);
    assert_eq!(r.order, None);
    assert_eq!(r.page, None);
    assert_eq!(r.per_page, None);
}

#[test]
fn refused_request_gives_the_error() {
    let r = user_search_request("rust", None, None, Some(0), None);
    match r {
        Err(GitHubError::InvalidInput(m)) => assert_eq!(m, "page must be >= 1"),
        _ => panic!("expected a refusal"),
    }
}
