//! The steps of a repository's analysis and of a search: what each outcome
//! of cloning, collecting and fetching leads to, and how errors read.

use vstd::prelude::*;
use crate::readme::ReadmeMetrics;
use crate::code_quality::CodeQualityMetrics;
use crate::test_metrics::TestMetrics;
use crate::ci_cd::CiCdMetrics;
use crate::documentation::DocumentationMetrics;
use crate::security::SecurityMetrics;
use crate::dependency_metrics::DependencyMetrics;
use crate::structure::StructureMetrics;
use crate::scoring::{LocalMetrics, LocalScores, fallback_scores, fallback_local_scores,
    local_scores_from, too_large, exceeds_repo_size};
use crate::search::{SearchError, decimal, push_decimal, push_text};
use crate::rate_limiter::{RateLimiter, reported_reset_time, time_ok, WINDOW, DEFAULT_LIMIT};
use crate::results::RepositoryResult;

verus! {

/// How cloning a repository ended.
#[derive(Clone, Copy, Debug, PartialEq, Eq, Structural)]
pub enum CloneOutcome {
    /// The clone did not finish within the fetch timeout.
    TimedOut,
    /// The clone failed, or its task did.
    Failed,
    /// The repository was cloned.
    Cloned,
}

/// The error for a clone that timed out: the operation names the
/// repository, the duration is the fetch timeout.
pub open spec fn clone_timeout(repo_name: Seq<char>, fetch_timeout: u64, e: SearchError) -> bool {
    e matches SearchError::TimeoutError { operation, duration } && operation@ == "git_clone_"@
        + repo_name && duration == fetch_timeout
}

/// What a repository's local analysis comes to after the clone: an error
/// when it timed out, the fallback scores when it failed, and nothing yet
/// (`None`: collect the metrics) when it succeeded.
pub fn after_clone(outcome: CloneOutcome, repo_name: &str, fetch_timeout: u64) -> (r: Option<
    Result<LocalScores, SearchError>,
>)
    ensures
        outcome == CloneOutcome::Cloned <==> r is None,
        outcome == CloneOutcome::TimedOut ==> (r matches Some(Err(e)) && clone_timeout(
            repo_name@,
            fetch_timeout,
            e,
        )),
        outcome == CloneOutcome::Failed ==> (r matches Some(Ok(s)) && fallback_scores(s)),
{
    match outcome {
        CloneOutcome::TimedOut => {
            let mut op = String::from_str("git_clone_");
            op.append(repo_name);
            proof {
                reveal_strlit("git_clone_");
            }
            Some(Err(SearchError::TimeoutError { operation: op, duration: fetch_timeout }))
        },
        CloneOutcome::Failed => Some(Ok(fallback_local_scores())),
        CloneOutcome::Cloned => None,
    }
}

/// The local scores once the metrics were collected, or the fallback scores
/// when the collection failed or timed out (`None`).
pub fn after_collection(metrics: Option<LocalMetrics>) -> (s: LocalScores)
    requires
        metrics matches Some(m) ==> m.wf(),
    ensures
        match metrics {
            Some(m) => s.metrics == Some(m) && s.readme_score.num == m.readme_quality.quality_score
                && s.readme_score.den == 100 && s.coverage_score
                == m.test_metrics.test_coverage_estimate && s.overall_local.num == m.readme_quality.quality_score
                + 10 * m.test_metrics.test_coverage_estimate.num && s.overall_local.den == 200,
            None => fallback_scores(s),
        },
{
    match metrics {
        Some(m) => local_scores_from(m),
        None => fallback_local_scores(),
    }
}

/// The local scores of a repository too large to clone, if it is: the
/// fallback scores.
pub fn before_clone(size_kb: Option<u32>, max_repo_size: u64) -> (r: Option<LocalScores>)
    ensures
        too_large(size_kb, max_repo_size) <==> r is Some,
        r matches Some(s) ==> fallback_scores(s),
{
    if exceeds_repo_size(size_kb, max_repo_size) {
        Some(fallback_local_scores())
    } else {
        None
    }
}

/// All metrics of a clone, when every collection gave its metrics.
pub fn collect_local_metrics(
    readme_quality: Option<ReadmeMetrics>,
    code_quality: Option<CodeQualityMetrics>,
    test_metrics: Option<TestMetrics>,
    ci_cd_metrics: Option<CiCdMetrics>,
    documentation_metrics: Option<DocumentationMetrics>,
    dependency_metrics: Option<DependencyMetrics>,
    security_metrics: Option<SecurityMetrics>,
    structure_metrics: Option<StructureMetrics>,
) -> (r: Option<LocalMetrics>)
    ensures
        r is Some <==> (readme_quality is Some && code_quality is Some && test_metrics is Some
            && ci_cd_metrics is Some && documentation_metrics is Some && dependency_metrics is Some
            && security_metrics is Some && structure_metrics is Some),
        r matches Some(m) ==> (readme_quality == Some(m.readme_quality) && code_quality == Some(
            m.code_quality,
        ) && test_metrics == Some(m.test_metrics) && ci_cd_metrics == Some(m.ci_cd_metrics)
            && documentation_metrics == Some(m.documentation_metrics) && dependency_metrics == Some(
            m.dependency_metrics,
        ) && security_metrics == Some(m.security_metrics) && structure_metrics == Some(
            m.structure_metrics,
        )),
{
    match (
        readme_quality,
        code_quality,
        test_metrics,
        ci_cd_metrics,
        documentation_metrics,
        dependency_metrics,
        security_metrics,
        structure_metrics,
    ) {
        (Some(a), Some(b), Some(c), Some(d), Some(e), Some(f), Some(g), Some(h)) => Some(
            LocalMetrics {
                readme_quality: a,
                code_quality: b,
                test_metrics: c,
                ci_cd_metrics: d,
                documentation_metrics: e,
                dependency_metrics: f,
                security_metrics: g,
                structure_metrics: h,
            },
        ),
        _ => None,
    }
}

/// The commit a cached result must match: the latest commit's hash, or
/// empty when the repository has no commits.
pub fn latest_commit_sha(first: Option<&String>) -> (s: String)
    ensures
        s@ == match first {
            Some(h) => h@,
            None => seq![],
        },
{
    match first {
        Some(h) => h.clone(),
        None => String::new(),
    }
}

/// The error for a repository search that timed out.
pub fn search_timeout_error(api_timeout: u64) -> (e: SearchError)
    ensures
        e matches SearchError::TimeoutError { operation, duration } && operation@
            == "repository_search"@ && duration == api_timeout,
{
    proof {
        reveal_strlit("repository_search");
    }
    SearchError::TimeoutError { operation: "repository_search".to_owned(), duration: api_timeout }
}

/// Records the rate limit the API reported after a search, at `now`, and
/// returns the requests remaining for the report: the reported count, or
/// 5000 (the limiter unchanged) when the report could not be fetched.
pub fn record_rate_limit(l: &mut RateLimiter, report: Option<(u32, i64)>, now: i64) -> (remaining: u32)
    requires
        time_ok(now),
    ensures
        match report {
            Some((n, reset)) => {
                &&& remaining == n
                &&& final(l).remaining == n
                &&& final(l).reset_time == if crate::search::representable(reset) {
                    reset as int
                } else {
                    now + WINDOW
                }
                &&& final(l).last_check == now
            },
            None => remaining == DEFAULT_LIMIT && *final(l) == *old(l),
        },
{
    match report {
        Some((n, reset)) => {
            let t = reported_reset_time(reset, now);
            l.update(n, t, now);
            n
        },
        None => DEFAULT_LIMIT,
    }
}

/// Named result of formatting, with chrono's `Display` for
/// `DateTime<Utc>`, the UTC time `secs` seconds after the Unix epoch.
pub uninterp spec fn datetime_text(secs: i64) -> Seq<char>;

/// Formats a time with chrono's `Display` for `DateTime<Utc>`, when chrono
/// represents it. The contract names the result.
#[verifier::external_body]
fn format_datetime(secs: i64) -> (r: Option<String>)
    ensures
        r is Some <==> crate::search::representable(secs),
        r matches Some(s) ==> s@ == datetime_text(secs),
{
    chrono::DateTime::from_timestamp(secs, 0).map(|t| t.to_string())
}

/// `Debug` of a whole number of seconds as a `std::time::Duration`: `0ns`
/// for none, else the seconds followed by `s`.
pub open spec fn duration_text(secs: u64) -> Seq<char> {
    if secs == 0 {
        "0ns"@
    } else {
        decimal(secs as nat) + "s"@
    }
}

/// How a time reads in a message: chrono's rendering, or the seconds since
/// the epoch for a time chrono does not represent.
pub open spec fn time_text(secs: i64) -> Seq<char> {
    if crate::search::representable(secs) {
        datetime_text(secs)
    } else if secs >= 0 {
        decimal(secs as nat)
    } else {
        seq!['-'] + decimal((-secs) as nat)
    }
}

/// The message of an error.
pub open spec fn error_message(e: SearchError) -> Seq<char> {
    match e {
        SearchError::ApiError(s) => "GitHub API error: "@ + s@,
        SearchError::LocalAnalysisError(s) => "Local analysis error: "@ + s@,
        SearchError::RateLimitExceeded { remaining, reset_time } => "Rate limit exceeded. Remaining: "@
            + decimal(remaining as nat) + ", Reset time: "@ + time_text(reset_time),
        SearchError::InvalidQuery { details } => "Invalid query or missing repository info: "@
            + details@,
        SearchError::ResourceLimitExceeded { resource, limit } => "Resource limit exceeded. Resource: "@
            + resource@ + ", Limit: "@ + limit@,
        SearchError::NoResults { query } => "No search results found for query: "@ + query@,
        SearchError::TimeoutError { operation, duration } => "Operation timed out: "@ + operation@
            + " after "@ + duration_text(duration),
        SearchError::AuthenticationError => "Authentication failed"@,
        SearchError::AccessDenied { repo } => "Access denied to repository: "@ + repo@,
        SearchError::ConfigError(s) => "Configuration error: "@ + s@,
    }
}

fn push_time(v: &mut Vec<char>, secs: i64)
    ensures
        final(v)@ == old(v)@ + time_text(secs),
{
    match format_datetime(secs) {
        Some(t) => push_text(v, t.as_str()),
        None => {
            if secs >= 0 {
                push_decimal(v, secs as u64);
            } else {
                v.push('-');
                let ghost mid = v@;
                let m: u64 = if secs == i64::MIN {
                    0x8000_0000_0000_0000
                } else {
                    (-secs) as u64
                };
                push_decimal(v, m);
                assert(v@ =~= old(v)@ + (seq!['-'] + decimal((-secs) as nat)));
            }
        },
    }
}

impl SearchError {
    /// The message of the error, as it is reported.
    pub fn message(&self) -> (s: String)
        ensures
            s@ == error_message(*self),
    {
        let mut v: Vec<char> = Vec::new();
        match self {
            SearchError::ApiError(s) => {
                push_text(&mut v, "GitHub API error: ");
                push_text(&mut v, s.as_str());
            },
            SearchError::LocalAnalysisError(s) => {
                push_text(&mut v, "Local analysis error: ");
                push_text(&mut v, s.as_str());
            },
            SearchError::RateLimitExceeded { remaining, reset_time } => {
                push_text(&mut v, "Rate limit exceeded. Remaining: ");
                push_decimal(&mut v, *remaining as u64);
                push_text(&mut v, ", Reset time: ");
                push_time(&mut v, *reset_time);
            },
            SearchError::InvalidQuery { details } => {
                push_text(&mut v, "Invalid query or missing repository info: ");
                push_text(&mut v, details.as_str());
            },
            SearchError::ResourceLimitExceeded { resource, limit } => {
                push_text(&mut v, "Resource limit exceeded. Resource: ");
                push_text(&mut v, resource.as_str());
                push_text(&mut v, ", Limit: ");
                push_text(&mut v, limit.as_str());
            },
            SearchError::NoResults { query } => {
                push_text(&mut v, "No search results found for query: ");
                push_text(&mut v, query.as_str());
            },
            SearchError::TimeoutError { operation, duration } => {
                push_text(&mut v, "Operation timed out: ");
                push_text(&mut v, operation.as_str());
                push_text(&mut v, " after ");
                if *duration == 0 {
                    push_text(&mut v, "0ns");
                } else {
                    push_decimal(&mut v, *duration);
                    push_text(&mut v, "s");
                }
            },
            SearchError::AuthenticationError => {
                push_text(&mut v, "Authentication failed");
            },
            SearchError::AccessDenied { repo } => {
                push_text(&mut v, "Access denied to repository: ");
                push_text(&mut v, repo.as_str());
            },
            SearchError::ConfigError(s) => {
                push_text(&mut v, "Configuration error: ");
                push_text(&mut v, s.as_str());
            },
        }
        assert(v@ =~= error_message(*self));
        crate::text::string_of(&v)
    }
}

/// The results among the outcomes of analyses, in order.
pub open spec fn successes(os: Seq<Result<RepositoryResult, SearchError>>) -> Seq<RepositoryResult>
    decreases os.len(),
{
    if os.len() == 0 {
        seq![]
    } else {
        match os.last() {
            Ok(r) => successes(os.drop_last()).push(r),
            Err(_) => successes(os.drop_last()),
        }
    }
}

/// The messages of the errors among the outcomes of analyses, in order.
pub open spec fn error_messages(os: Seq<Result<RepositoryResult, SearchError>>) -> Seq<Seq<char>>
    decreases os.len(),
{
    if os.len() == 0 {
        seq![]
    } else {
        match os.last() {
            Ok(_) => error_messages(os.drop_last()),
            Err(e) => error_messages(os.drop_last()).push(error_message(e)),
        }
    }
}

/// The analyses of a search split into the results and the messages of the
/// errors, each in order.
pub fn partition_analyses(outcomes: Vec<Result<RepositoryResult, SearchError>>) -> (r: (
    Vec<RepositoryResult>,
    Vec<String>,
))
    ensures
        r.1@.map_values(|s: String| s@) == error_messages(outcomes@),
        r.0@ == successes(outcomes@),
{
    let ghost all = outcomes@;
    let mut results: Vec<RepositoryResult> = Vec::new();
    let mut errors: Vec<String> = Vec::new();
    for x in it: outcomes.into_iter()
        invariant
            it.seq() == all,
            results@ == successes(all.take(it.index() as int)),
            errors@.map_values(|s: String| s@) == error_messages(all.take(it.index() as int)),
    {
        let ghost i = it.index();
        assert(all.take(i + 1).drop_last() =~= all.take(i as int));
        assert(all.take(i + 1).last() == x);
        match x {
            Ok(r) => {
                results.push(r);
            },
            Err(e) => {
                let ghost before = errors@;
                let m = e.message();
                errors.push(m);
                assert(errors@.map_values(|s: String| s@) =~= before.map_values(|s: String| s@).push(
                    error_message(e),
                ));
            },
        }
    }
    assert(all.take(all.len() as int) =~= all);
    (results, errors)
}

} // verus!
