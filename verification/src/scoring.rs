//! Scores of a repository: the API score from its metadata, the local
//! scores from the metrics of a clone, and how they combine.

use vstd::prelude::*;
use crate::ratio::Ratio;
use crate::readme::ReadmeMetrics;
use crate::code_quality::CodeQualityMetrics;
use crate::test_metrics::TestMetrics;
use crate::ci_cd::CiCdMetrics;
use crate::documentation::DocumentationMetrics;
use crate::security::{SecurityMetrics, calculate_security_score, security_score};
use crate::dependency_metrics::DependencyMetrics;
use crate::structure::StructureMetrics;
use crate::text::lowercase;
use crate::text::to_lowercase;

verus! {

/// What the API score reads of a repository's metadata.
pub struct RepoFacts {
    pub stars: Option<u32>,
    pub forks: Option<u32>,
    pub has_license: bool,
    pub has_description: bool,
    /// The topics, when the API listed them.
    pub topics: Option<Vec<String>>,
}

/// The API score in tenths before it is held at one: stars over 1000 give
/// 3, over 100 give 2, over 10 give 1; forks over 100 give 2, over 10
/// give 1; commits in the last month give 2; a license, a description and
/// topics give 1 each.
pub open spec fn api_points(f: RepoFacts, recent_commits: bool) -> nat {
    let stars = match f.stars {
        Some(s) => s,
        None => 0,
    };
    let forks = match f.forks {
        Some(s) => s,
        None => 0,
    };
    (if stars > 1000 {
        3nat
    } else if stars > 100 {
        2
    } else if stars > 10 {
        1
    } else {
        0
    }) + (if forks > 100 {
        2nat
    } else if forks > 10 {
        1
    } else {
        0
    }) + (if recent_commits {
        2nat
    } else {
        0
    }) + (if f.has_license {
        1nat
    } else {
        0
    }) + (if f.has_description {
        1nat
    } else {
        0
    }) + (if f.topics matches Some(t) && t.len() > 0 {
        1nat
    } else {
        0
    })
}

/// The API score: its points in tenths, at most one.
pub open spec fn api_score(f: RepoFacts, recent_commits: bool) -> Ratio {
    Ratio {
        num: if api_points(f, recent_commits) > 10 {
            10
        } else {
            api_points(f, recent_commits) as u64
        },
        den: 10,
    }
}

/// The API score of a repository; `commits_last_month` comes from its
/// activity metrics, when there are any.
pub fn compute_api_metrics(f: &RepoFacts, commits_last_month: Option<u32>) -> (r: Ratio)
    ensures
        r == api_score(*f, commits_last_month matches Some(n) && n > 0),
        r.wf(),
        r.num <= r.den,
{
    let stars: u32 = match f.stars {
        Some(s) => s,
        None => 0,
    };
    let forks: u32 = match f.forks {
        Some(s) => s,
        None => 0,
    };
    let mut score: u64 = 0;
    if stars > 1000 {
        score += 3;
    } else if stars > 100 {
        score += 2;
    } else if stars > 10 {
        score += 1;
    }
    if forks > 100 {
        score += 2;
    } else if forks > 10 {
        score += 1;
    }
    match commits_last_month {
        Some(n) => {
            if n > 0 {
                score += 2;
            }
        },
        None => {},
    }
    if f.has_license {
        score += 1;
    }
    if f.has_description {
        score += 1;
    }
    match &f.topics {
        Some(t) => {
            if t.len() > 0 {
                score += 1;
            }
        },
        None => {},
    }
    Ratio { num: if score > 10 { 10 } else { score }, den: 10 }
}

/// The status of the latest GitHub Actions run, as the API gave it.
pub enum LatestRun {
    /// The request failed.
    Unavailable,
    /// The repository has no runs.
    NoRuns,
    /// The latest run has not concluded.
    Running,
    /// The latest run concluded so.
    Concluded(String),
}

/// The reported build status: the conclusion of the latest run in lower
/// case, `pending` while it runs, `no_runs` without runs, `unknown` when
/// the request failed.
pub open spec fn build_status_text(run: LatestRun) -> Seq<char> {
    match run {
        LatestRun::Unavailable => "unknown"@,
        LatestRun::NoRuns => "no_runs"@,
        LatestRun::Running => "pending"@,
        LatestRun::Concluded(c) => lowercase(c@),
    }
}

/// The build status reported for the latest workflow run.
pub fn query_build_status(run: &LatestRun) -> (s: String)
    ensures
        s@ == build_status_text(*run),
{
    proof {
        reveal_strlit("unknown");
        reveal_strlit("no_runs");
        reveal_strlit("pending");
    }
    match run {
        LatestRun::Unavailable => "unknown".to_owned(),
        LatestRun::NoRuns => "no_runs".to_owned(),
        LatestRun::Running => "pending".to_owned(),
        LatestRun::Concluded(c) => to_lowercase(c.as_str()),
    }
}

/// The build status of a clone: `no_ci` without a `.github/workflows`
/// directory, else that of the latest workflow run.
pub fn build_status(has_workflows_dir: bool, run: &LatestRun) -> (s: String)
    ensures
        s@ == if has_workflows_dir {
            build_status_text(*run)
        } else {
            "no_ci"@
        },
{
    if has_workflows_dir {
        query_build_status(run)
    } else {
        "no_ci".to_owned()
    }
}

/// All metrics collected from a clone of a repository.
#[derive(Clone, Debug)]
pub struct LocalMetrics {
    pub readme_quality: ReadmeMetrics,
    pub code_quality: CodeQualityMetrics,
    pub test_metrics: TestMetrics,
    pub ci_cd_metrics: CiCdMetrics,
    pub documentation_metrics: DocumentationMetrics,
    pub security_metrics: SecurityMetrics,
    pub dependency_metrics: DependencyMetrics,
    pub structure_metrics: StructureMetrics,
}

impl LocalMetrics {
    /// The scores derived from the metrics are in range: the README score
    /// at most 100, the coverage estimate in tenths of at most one, the
    /// signed commits ratio taken over counts that fit in `u32`.
    pub open spec fn wf(self) -> bool {
        &&& self.readme_quality.quality_score <= 100
        &&& self.test_metrics.test_coverage_estimate.den == 10
        &&& self.test_metrics.test_coverage_estimate.num <= 10
        &&& self.security_metrics.signed_commits_ratio.wf()
        &&& self.security_metrics.signed_commits_ratio.den <= u32::MAX
        &&& self.security_metrics.signed_commits_ratio.num <= u32::MAX
    }
}

/// The scores of the local analysis of a repository.
#[derive(Clone, Debug)]
pub struct LocalScores {
    pub overall_local: Ratio,
    pub readme_score: Ratio,
    pub coverage_score: Ratio,
    pub metrics: Option<LocalMetrics>,
}

/// The local scores reported when a repository is not analysed (too large,
/// or the clone or the collection failed): 0.3 overall, nothing else.
pub open spec fn fallback_scores(s: LocalScores) -> bool {
    &&& s.overall_local == (Ratio { num: 3, den: 10 })
    &&& s.readme_score == (Ratio { num: 0, den: 1 })
    &&& s.coverage_score == (Ratio { num: 0, den: 1 })
    &&& s.metrics is None
}

/// The local scores of a repository that is not analysed.
pub fn fallback_local_scores() -> (s: LocalScores)
    ensures
        fallback_scores(s),
{
    LocalScores {
        overall_local: Ratio { num: 3, den: 10 },
        readme_score: Ratio { num: 0, den: 1 },
        coverage_score: Ratio { num: 0, den: 1 },
        metrics: None,
    }
}

/// Whether a repository of `size_kb` kilobytes is too large to clone.
pub open spec fn too_large(size_kb: Option<u32>, max_repo_size: u64) -> bool {
    (match size_kb {
        Some(k) => k as int,
        None => 0,
    }) * 1024 > max_repo_size
}

/// Whether a repository is too large to clone: its size in bytes (kilobytes
/// times 1024) exceeds the limit.
pub fn exceeds_repo_size(size_kb: Option<u32>, max_repo_size: u64) -> (b: bool)
    ensures
        b == too_large(size_kb, max_repo_size),
{
    let kb: u64 = match size_kb {
        Some(k) => k as u64,
        None => 0,
    };
    kb * 1024 > max_repo_size
}

/// The local scores from collected metrics: the README score is its
/// quality score over 100, the coverage score the test coverage estimate,
/// and the overall local score their mean.
pub fn local_scores_from(metrics: LocalMetrics) -> (s: LocalScores)
    requires
        metrics.wf(),
    ensures
        s.readme_score == (Ratio { num: metrics.readme_quality.quality_score as u64, den: 100 }),
        s.coverage_score == metrics.test_metrics.test_coverage_estimate,
        s.overall_local == (Ratio {
            num: (metrics.readme_quality.quality_score + 10
                * metrics.test_metrics.test_coverage_estimate.num) as u64,
            den: 200,
        }),
        s.metrics == Some(metrics),
{
    let q = metrics.readme_quality.quality_score as u64;
    let c = metrics.test_metrics.test_coverage_estimate;
    LocalScores {
        overall_local: Ratio { num: q + 10 * c.num, den: 200 },
        readme_score: Ratio { num: q, den: 100 },
        coverage_score: c,
        metrics: Some(metrics),
    }
}

/// Local scores hold proportions with small denominators.
pub open spec fn scores_wf(s: LocalScores) -> bool {
    &&& s.overall_local.wf() && s.overall_local.den <= 1000 && s.overall_local.num
        <= s.overall_local.den
    &&& s.readme_score.wf() && s.readme_score.den <= 1000 && s.readme_score.num
        <= s.readme_score.den
    &&& s.coverage_score.wf() && s.coverage_score.den <= 1000 && s.coverage_score.num
        <= s.coverage_score.den
    &&& s.metrics matches Some(m) ==> m.wf()
}

/// The quality scores of a repository.
#[derive(Clone, Debug)]
pub struct QualityMetrics {
    pub overall_score: Ratio,
    pub api_score: Ratio,
    pub local_score: Ratio,
    pub popularity_score: Ratio,
    pub maintenance_score: Ratio,
    pub documentation_score: Ratio,
    pub security_score: Ratio,
}

/// Seven tenths of the API score and three tenths of the local score:
/// `(7 a d + 30 n) / (100 d)` for an API score `a / 10` and a local score
/// `n / d`.
pub open spec fn overall(api: Ratio, local: Ratio) -> Ratio {
    Ratio { num: (7 * api.num * local.den + 30 * local.num) as u64, den: (100 * local.den) as u64 }
}

/// The security score reported: that of the security metrics, else 0.5.
pub open spec fn security_of(m: Option<LocalMetrics>) -> Ratio {
    match m {
        Some(m) => security_score(m.security_metrics),
        None => Ratio { num: 1, den: 2 },
    }
}

/// Combines the API score (tenths) and the local scores: the overall score
/// weighs them 0.7 and 0.3; popularity and documentation take the README
/// score, maintenance the coverage score.
pub fn quality_metrics(api: Ratio, local: &LocalScores) -> (q: QualityMetrics)
    requires
        api.den == 10,
        api.num <= 10,
        scores_wf(*local),
    ensures
        q.overall_score == overall(api, local.overall_local),
        q.overall_score.wf(),
        q.overall_score.num <= q.overall_score.den,
        q.api_score == api,
        q.local_score == local.overall_local,
        q.popularity_score == local.readme_score,
        q.maintenance_score == local.coverage_score,
        q.documentation_score == local.readme_score,
        q.security_score == security_of(local.metrics),
{
    let n = local.overall_local.num;
    let d = local.overall_local.den;
    assert(7 * api.num * d <= 70 * d) by (nonlinear_arith)
        requires
            api.num <= 10,
    ;
    assert(30 * n <= 30 * d) by (nonlinear_arith)
        requires
            n <= d,
    ;
    let security = match &local.metrics {
        Some(m) => calculate_security_score(&m.security_metrics),
        None => Ratio { num: 1, den: 2 },
    };
    QualityMetrics {
        overall_score: Ratio { num: 7 * api.num * d + 30 * n, den: 100 * d },
        api_score: api,
        local_score: local.overall_local,
        popularity_score: local.readme_score,
        maintenance_score: local.coverage_score,
        documentation_score: local.readme_score,
        security_score: security,
    }
}

/// `x` tenths held at ten.
pub open spec fn at_most_ten(x: int) -> int {
    if x > 10 {
        10
    } else {
        x
    }
}

/// A repository with fewer than 11 stars, fewer than 11 forks, no commit in
/// the last month, no license, no description and no topics scores 0.
pub proof fn law_api_nothing_scores_zero(f: RepoFacts)
    requires
        f.stars matches Some(s) ==> s <= 10,
        f.forks matches Some(k) ==> k <= 10,
        !f.has_license,
        !f.has_description,
        f.topics matches Some(t) ==> t.len() == 0,
    ensures
        api_score(f, false) == (Ratio { num: 0, den: 10 }),
{
}

/// Each API criterion adds its own tenths, whatever the others give, up to
/// the cap of one: a license, a description and a non-empty topic list add
/// one tenth each, and a commit in the last month two.
pub proof fn law_api_flags(f: RepoFacts, recent: bool)
    ensures
        api_score(RepoFacts { has_license: true, ..f }, recent).num == at_most_ten(
            api_score(RepoFacts { has_license: false, ..f }, recent).num + 1,
        ),
        api_score(RepoFacts { has_description: true, ..f }, recent).num == at_most_ten(
            api_score(RepoFacts { has_description: false, ..f }, recent).num + 1,
        ),
        f.topics matches Some(t) && t.len() > 0 ==> api_score(f, recent).num == at_most_ten(
            api_score(RepoFacts { topics: None, ..f }, recent).num + 1,
        ),
        api_score(f, true).num == at_most_ten(api_score(f, false).num + 2),
        api_score(f, recent).den == 10,
        api_score(f, recent).num <= 10,
{
}

/// Stars add by tier over having none (or none known): over 1000 three
/// tenths, 101 to 1000 two, 11 to 100 one, and 10 or fewer nothing, up to
/// the cap of one; more stars never lower the score.
pub proof fn law_api_stars(f: RepoFacts, recent: bool, s: u32, s2: u32)
    ensures
        ({
            let none = api_score(RepoFacts { stars: None, ..f }, recent).num as int;
            let with = api_score(RepoFacts { stars: Some(s), ..f }, recent).num as int;
            &&& s > 1000 ==> with == at_most_ten(none + 3)
            &&& 100 < s <= 1000 ==> with == at_most_ten(none + 2)
            &&& 10 < s <= 100 ==> with == at_most_ten(none + 1)
            &&& s <= 10 ==> with == none
        }),
        s <= s2 ==> api_score(RepoFacts { stars: Some(s), ..f }, recent).num <= api_score(
            RepoFacts { stars: Some(s2), ..f },
            recent,
        ).num,
{
}

/// Forks add by tier over having none (or none known): over 100 two
/// tenths, 11 to 100 one, and 10 or fewer nothing, up to the cap of one;
/// more forks never lower the score.
pub proof fn law_api_forks(f: RepoFacts, recent: bool, k: u32, k2: u32)
    ensures
        ({
            let none = api_score(RepoFacts { forks: None, ..f }, recent).num as int;
            let with = api_score(RepoFacts { forks: Some(k), ..f }, recent).num as int;
            &&& k > 100 ==> with == at_most_ten(none + 2)
            &&& 10 < k <= 100 ==> with == at_most_ten(none + 1)
            &&& k <= 10 ==> with == none
        }),
        k <= k2 ==> api_score(RepoFacts { forks: Some(k), ..f }, recent).num <= api_score(
            RepoFacts { forks: Some(k2), ..f },
            recent,
        ).num,
{
}

/// The overall score weighs the API score 0.7 and the local score 0.3:
/// as fractions, `overall = 7/10 * api + 3/10 * local`. Both at one give
/// one, and a higher API or local score never gives a lower overall score.
pub proof fn law_overall_weights(api: Ratio, local: Ratio, api2: Ratio, local2: Ratio)
    requires
        api.den == 10,
        api.num <= 10,
        0 < local.den <= 1000,
        local.num <= local.den,
        api2.den == 10,
        api.num <= api2.num <= 10,
        local2.den == local.den,
        local.num <= local2.num <= local2.den,
    ensures
        10 * overall(api, local).num * api.den * local.den == (7 * api.num * local.den + 3 * local.num
            * api.den) * overall(api, local).den,
        overall(Ratio { num: 10, den: 10 }, Ratio { num: local.den, den: local.den }).num == overall(
            Ratio { num: 10, den: 10 },
            Ratio { num: local.den, den: local.den },
        ).den,
        overall(Ratio { num: 0, den: 10 }, Ratio { num: 0, den: local.den }).num == 0,
        overall(api, local).den == overall(api2, local2).den,
        overall(api, local).num <= overall(api2, local2).num,
{
    let a = api.num as int;
    let n = local.num as int;
    let d = local.den as int;
    assert(7 * a * d <= 70 * 1000) by (nonlinear_arith)
        requires
            0 <= a <= 10,
            0 < d <= 1000,
    ;
    assert(7 * a * d + 30 * n <= 100 * 1000) by (nonlinear_arith)
        requires
            0 <= a <= 10,
            0 < d <= 1000,
            0 <= n <= d,
    ;
    assert(10 * (7 * a * d + 30 * n) * 10 * d == (7 * a * d + 3 * n * 10) * (100 * d)) by (nonlinear_arith);
    assert(7 * a * d <= 7 * (api2.num as int) * d) by (nonlinear_arith)
        requires
            0 <= a <= api2.num,
            0 < d,
    ;
    assert(7 * (api2.num as int) * d + 30 * (local2.num as int) <= 100 * 1000) by (nonlinear_arith)
        requires
            0 <= api2.num <= 10,
            0 < d <= 1000,
            0 <= local2.num <= d,
    ;
    assert(7 * 10 * d + 30 * d == 100 * d) by (nonlinear_arith);
    assert(7 * 0 * d + 30 * 0 == 0) by (nonlinear_arith);
}

} // verus!
