//! Parameters and validation of the GitHub user search.

use vstd::prelude::*;

verus! {

/// Sort order for search results.
#[derive(Debug, Clone, Copy, PartialEq, Eq, Structural)]
pub enum SearchOrder {
    /// Ascending order (low to high, old to new)
    Asc,
    /// Descending order (high to low, new to old)
    Desc,
}

impl SearchOrder {
    /// The GitHub API text of this sort order.
    pub open spec fn spec_text(self) -> Seq<char> {
        match self {
            SearchOrder::Asc => seq!['a', 's', 'c'],
            SearchOrder::Desc => seq!['d', 'e', 's', 'c'],
        }
    }

    /// Returns the GitHub API string representation of this sort order.
    pub fn as_str(&self) -> (s: &'static str)
        ensures
            s@ == self.spec_text(),
    {
        match self {
            SearchOrder::Asc => {
                proof { reveal_strlit("asc"); }
                "asc"
            },
            SearchOrder::Desc => {
                proof { reveal_strlit("desc"); }
                "desc"
            },
        }
    }
}


/// Sort field for user search results.
#[derive(Debug, Clone, Copy, PartialEq, Eq, Structural)]
pub enum UserSearchSort {
    /// Sort by follower count (most to least)
    Followers,
    /// Sort by public repository count
    Repositories,
    /// Sort by account creation date
    Joined,
}

impl UserSearchSort {
    /// The GitHub API text of this sort field.
    pub open spec fn spec_text(self) -> Seq<char> {
        match self {
            UserSearchSort::Followers => "followers"@,
            UserSearchSort::Repositories => "repositories"@,
            UserSearchSort::Joined => "joined"@,
        }
    }

    /// Returns the GitHub API string representation of this sort field.
    pub fn as_str(&self) -> (s: &'static str)
        ensures
            s@ == self.spec_text(),
    {
        match self {
            UserSearchSort::Followers => "followers",
            UserSearchSort::Repositories => "repositories",
            UserSearchSort::Joined => "joined",
        }
    }
}

/// Errors of the GitHub operations.
#[derive(Debug, Clone, PartialEq, Eq)]
pub enum GitHubError {
    /// The request was refused before it was sent, for this reason.
    InvalidInput(String),
    /// The GitHub client reported this error.
    Octocrab(String),
}

/// Why a user search is refused before it is sent, if it is: an empty
/// query, a page below 1, or a page size outside 1 to 100, checked in this
/// order.
pub open spec fn user_search_refusal(query: Seq<char>, page: Option<u32>, per_page: Option<u8>) -> Option<Seq<char>> {
    if query.len() == 0 {
        Some("search query cannot be empty"@)
    } else if page matches Some(p) && p < 1 {
        Some("page must be >= 1"@)
    } else if per_page matches Some(pp) && !(1 <= pp <= 100) {
        Some("per_page must be between 1 and 100"@)
    } else {
        None
    }
}

/// Checks the parameters of a user search: the error it is refused with,
/// or nothing when it may be sent.
pub fn validate_user_search(query: &str, page: Option<u32>, per_page: Option<u8>) -> (r: Result<(), GitHubError>)
    ensures
        match user_search_refusal(query@, page, per_page) {
            Some(m) => r matches Err(GitHubError::InvalidInput(t)) && t@ == m,
            None => r is Ok,
        },
{
    proof {
        reveal_strlit("search query cannot be empty");
        reveal_strlit("page must be >= 1");
        reveal_strlit("per_page must be between 1 and 100");
    }
    if query.is_empty() {
        return Err(GitHubError::InvalidInput("search query cannot be empty".to_owned()));
    }
    match page {
        Some(p) => {
            if p < 1 {
                return Err(GitHubError::InvalidInput("page must be >= 1".to_owned()));
            }
        },
        None => {},
    }
    match per_page {
        Some(pp) => {
            if !(1 <= pp && pp <= 100) {
                return Err(GitHubError::InvalidInput("per_page must be between 1 and 100".to_owned()));
            }
        },
        None => {},
    }
    Ok(())
}

/// The parameters a user search request carries, as the API takes them:
/// the query, and the sort field, order, page and page size that are set.
pub struct UserSearchRequest {
    pub query: String,
    pub sort: Option<&'static str>,
    pub order: Option<&'static str>,
    pub page: Option<u32>,
    pub per_page: Option<u8>,
}

/// The request for a user search, or the error it is refused with.
pub fn user_search_request(
    query: &str,
    sort: Option<UserSearchSort>,
    order: Option<SearchOrder>,
    page: Option<u32>,
    per_page: Option<u8>,
) -> (r: Result<UserSearchRequest, GitHubError>)
    ensures
        match user_search_refusal(query@, page, per_page) {
            Some(m) => r matches Err(GitHubError::InvalidInput(t)) && t@ == m,
            None => r matches Ok(q) && {
                &&& q.query@ == query@
                &&& match sort {
                    Some(s) => q.sort matches Some(t) && t@ == s.spec_text(),
                    None => q.sort is None,
                }
                &&& match order {
                    Some(o) => q.order matches Some(t) && t@ == o.spec_text(),
                    None => q.order is None,
                }
                &&& q.page == page
                &&& q.per_page == per_page
            },
        },
{
    match validate_user_search(query, page, per_page) {
        Err(e) => Err(e),
        Ok(()) => Ok(
            UserSearchRequest {
                query: query.to_owned(),
                sort: match sort {
                    Some(s) => Some(s.as_str()),
                    None => None,
                },
                order: match order {
                    Some(o) => Some(o.as_str()),
                    None => None,
                },
                page,
                per_page,
            },
        ),
    }
}

} // verus!
