//! The analysis result of one repository, assembled from its listing,
//! activity and scores.

use vstd::prelude::*;
use crate::ratio::Ratio;
use crate::activity::ActivityMetrics;
use crate::scoring::{LocalMetrics, LocalScores, QualityMetrics, quality_metrics, overall,
    security_of, scores_wf};

verus! {

/// A repository as the search API listed it.
pub struct RepoListing {
    pub name: String,
    pub full_name: Option<String>,
    pub owner_login: Option<String>,
    pub html_url: Option<String>,
    pub clone_url: Option<String>,
    pub description: Option<String>,
    pub stargazers_count: Option<u32>,
    pub forks_count: Option<u32>,
    pub watchers_count: Option<u32>,
    /// The language, when the API gave it as a string.
    pub language: Option<String>,
    pub topics: Option<Vec<String>>,
    /// The name of the license.
    pub license: Option<String>,
    /// Times in seconds since the Unix epoch.
    pub created_at: Option<i64>,
    pub updated_at: Option<i64>,
    pub pushed_at: Option<i64>,
    pub size_kb: Option<u32>,
    pub has_wiki: Option<bool>,
}

/// The analysis result of a repository.
#[derive(Clone, Debug)]
pub struct RepositoryResult {
    pub name: String,
    pub full_name: String,
    pub url: String,
    pub clone_url: String,
    pub description: Option<String>,
    pub stars: u32,
    pub forks: u32,
    pub watchers: u32,
    pub language: Option<String>,
    pub topics: Vec<String>,
    pub license: Option<String>,
    /// Times in seconds since the Unix epoch.
    pub created_at: i64,
    pub updated_at: i64,
    pub pushed_at: i64,
    pub size_kb: u32,
    pub quality_metrics: QualityMetrics,
    pub activity_metrics: Option<ActivityMetrics>,
    pub local_metrics: Option<LocalMetrics>,
    pub errors: Vec<String>,
}

/// The text of an optional string, or a default.
pub open spec fn text_or(s: Option<String>, d: Seq<char>) -> Seq<char> {
    match s {
        Some(t) => t@,
        None => d,
    }
}

/// A count, or zero.
pub open spec fn count_or_zero(n: Option<u32>) -> u32 {
    match n {
        Some(k) => k,
        None => 0,
    }
}

/// A time, or `now`.
pub open spec fn time_or(t: Option<i64>, now: i64) -> i64 {
    match t {
        Some(x) => x,
        None => now,
    }
}

/// The name a repository is reported and cached under: its full name, or
/// `unknown`.
pub fn repo_display_name(r: &RepoListing) -> (s: String)
    ensures
        s@ == text_or(r.full_name, "unknown"@),
{
    proof {
        reveal_strlit("unknown");
    }
    match &r.full_name {
        Some(n) => n.clone(),
        None => "unknown".to_owned(),
    }
}

fn string_or_empty(s: &Option<String>) -> (r: String)
    ensures
        r@ == text_or(*s, seq![]),
{
    match s {
        Some(t) => t.clone(),
        None => String::new(),
    }
}

/// Assembles the result of a repository's analysis at time `now`: its
/// listing, its activity (when it has commits), its API score and its
/// local scores. Missing counts read as zero, missing times as `now`.
pub fn assemble_result(
    r: RepoListing,
    now: i64,
    activity: Option<ActivityMetrics>,
    api: Ratio,
    local: LocalScores,
) -> (res: RepositoryResult)
    requires
        api.den == 10,
        api.num <= 10,
        scores_wf(local),
    ensures
        res.name@ == r.name@,
        res.full_name@ == text_or(r.full_name, "unknown"@),
        res.url@ == text_or(r.html_url, seq![]),
        res.clone_url@ == text_or(r.clone_url, seq![]),
        res.description == r.description,
        res.stars == count_or_zero(r.stargazers_count),
        res.forks == count_or_zero(r.forks_count),
        res.watchers == count_or_zero(r.watchers_count),
        res.language == r.language,
        res.topics@ == match r.topics {
            Some(t) => t@,
            None => seq![],
        },
        res.license == r.license,
        res.created_at == time_or(r.created_at, now),
        res.updated_at == time_or(r.updated_at, now),
        res.pushed_at == time_or(r.pushed_at, now),
        res.size_kb == count_or_zero(r.size_kb),
        res.quality_metrics.overall_score == overall(api, local.overall_local),
        res.quality_metrics.api_score == api,
        res.quality_metrics.local_score == local.overall_local,
        res.quality_metrics.popularity_score == local.readme_score,
        res.quality_metrics.maintenance_score == local.coverage_score,
        res.quality_metrics.documentation_score == local.readme_score,
        res.quality_metrics.security_score == security_of(local.metrics),
        res.activity_metrics == activity,
        res.local_metrics == local.metrics,
        res.errors@.len() == 0,
{
    let q = quality_metrics(api, &local);
    let full_name = repo_display_name(&r);
    let url = string_or_empty(&r.html_url);
    let clone_url = string_or_empty(&r.clone_url);
    RepositoryResult {
        name: r.name,
        full_name,
        url,
        clone_url,
        description: r.description,
        stars: match r.stargazers_count {
            Some(k) => k,
            None => 0,
        },
        forks: match r.forks_count {
            Some(k) => k,
            None => 0,
        },
        watchers: match r.watchers_count {
            Some(k) => k,
            None => 0,
        },
        language: r.language,
        topics: match r.topics {
            Some(t) => t,
            None => Vec::new(),
        },
        license: r.license,
        created_at: match r.created_at {
            Some(t) => t,
            None => now,
        },
        updated_at: match r.updated_at {
            Some(t) => t,
            None => now,
        },
        pushed_at: match r.pushed_at {
            Some(t) => t,
            None => now,
        },
        size_kb: match r.size_kb {
            Some(k) => k,
            None => 0,
        },
        quality_metrics: q,
        activity_metrics: activity,
        local_metrics: local.metrics,
        errors: Vec::new(),
    }
}

/// The message of the error for a repository without an owner.
pub open spec fn no_owner_message(repo_name: Seq<char>) -> Seq<char> {
    "Repository '"@ + repo_name + "' has no owner information - cannot fetch commits"@
}

/// The owner of a listed repository, or the message of the invalid query
/// error when the listing has none (its commits cannot be fetched).
pub fn owner_of(r: &RepoListing) -> (o: Result<String, String>)
    ensures
        match r.owner_login {
            Some(l) => o matches Ok(s) && s@ == l@,
            None => o matches Err(m) && m@ == no_owner_message(text_or(r.full_name, "unknown"@)),
        },
{
    match &r.owner_login {
        Some(l) => Ok(l.clone()),
        None => {
            let name = repo_display_name(r);
            let mut m = String::from_str("Repository '");
            m.append(name.as_str());
            m.append("' has no owner information - cannot fetch commits");
            Err(m)
        },
    }
}

} // verus!
