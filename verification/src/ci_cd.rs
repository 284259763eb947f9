//! CI/CD pipeline and automation metrics.

use crate::text::{chars_of, contains, contains_chars};
use vstd::prelude::*;

verus! {

/// What the workflow files read so far automate.
pub struct WorkflowScan {
    pub test_automation: bool,
    pub deployment_automation: bool,
    pub code_quality_checks: bool,
    pub security_scanning: bool,
    pub dependency_updates: bool,
    pub release_automation: bool,
}

impl WorkflowScan {
    /// Nothing read yet.
    pub fn new() -> (s: WorkflowScan)
        ensures
            !s.test_automation,
            !s.deployment_automation,
            !s.code_quality_checks,
            !s.security_scanning,
            !s.dependency_updates,
            !s.release_automation,
    {
        WorkflowScan {
            test_automation: false,
            deployment_automation: false,
            code_quality_checks: false,
            security_scanning: false,
            dependency_updates: false,
            release_automation: false,
        }
    }

    /// Takes in the text of one workflow file: each kind of automation is
    /// found by the words that mention it.
    pub fn add_workflow(&mut self, text: &str)
        ensures
            final(self).test_automation == (old(self).test_automation || contains(text@, "test"@)
                || contains(text@, "cargo test"@) || contains(text@, "npm test"@)),
            final(self).deployment_automation == (old(self).deployment_automation || contains(
                text@,
                "deploy"@,
            )),
            final(self).code_quality_checks == (old(self).code_quality_checks || contains(
                text@,
                "lint"@,
            ) || contains(text@, "clippy"@)),
            final(self).security_scanning == (old(self).security_scanning || contains(
                text@,
                "security"@,
            ) || contains(text@, "audit"@)),
            final(self).dependency_updates == (old(self).dependency_updates || contains(
                text@,
                "dependabot"@,
            ) || contains(text@, "renovate"@)),
            final(self).release_automation == (old(self).release_automation || contains(
                text@,
                "release"@,
            )),
    {
        let c = chars_of(text);
        if contains_chars(&c, &chars_of("test")) || contains_chars(&c, &chars_of("cargo test"))
            || contains_chars(&c, &chars_of("npm test")) {
            self.test_automation = true;
        }
        if contains_chars(&c, &chars_of("deploy")) {
            self.deployment_automation = true;
        }
        if contains_chars(&c, &chars_of("lint")) || contains_chars(&c, &chars_of("clippy")) {
            self.code_quality_checks = true;
        }
        if contains_chars(&c, &chars_of("security")) || contains_chars(&c, &chars_of("audit")) {
            self.security_scanning = true;
        }
        if contains_chars(&c, &chars_of("dependabot")) || contains_chars(
            &c,
            &chars_of("renovate"),
        ) {
            self.dependency_updates = true;
        }
        if contains_chars(&c, &chars_of("release")) {
            self.release_automation = true;
        }
    }
}

/// Which CI configurations exist in the repository.
pub struct CiFiles {
    /// `.github/workflows`
    pub github_actions: bool,
    /// `.travis.yml`
    pub travis: bool,
    /// `.circleci`
    pub circleci: bool,
    /// `Jenkinsfile`
    pub jenkins: bool,
    /// `.gitlab-ci.yml`
    pub gitlab: bool,
}

/// CI/CD pipeline and automation metrics.
#[derive(Clone, Debug)]
pub struct CiCdMetrics {
    pub has_ci: bool,
    pub ci_providers: Vec<String>,
    pub workflow_files: u32,
    pub build_status: String,
    pub test_automation: bool,
    pub deployment_automation: bool,
    pub code_quality_checks: bool,
    pub security_scanning: bool,
    pub dependency_updates: bool,
    pub release_automation: bool,
}

/// `name` appended to `ps` when `present`.
pub open spec fn with_provider(ps: Seq<Seq<char>>, name: Seq<char>, present: bool) -> Seq<Seq<char>> {
    if present {
        ps.push(name)
    } else {
        ps
    }
}

/// The CI providers found, in the order they are looked for.
pub open spec fn ci_providers(f: CiFiles) -> Seq<Seq<char>> {
    let a = with_provider(seq![], "GitHub Actions"@, f.github_actions);
    let b = with_provider(a, "Travis CI"@, f.travis);
    let c = with_provider(b, "CircleCI"@, f.circleci);
    let d = with_provider(c, "Jenkins"@, f.jenkins);
    with_provider(d, "GitLab CI"@, f.gitlab)
}

/// The CI/CD metrics: the providers whose configuration exists, the number
/// of entries in the workflow directory, what its workflow files automate
/// (nothing without GitHub Actions) and the status of the latest run.
pub fn collect_ci_cd_metrics(
    files: &CiFiles,
    workflow_files: u32,
    workflows: &WorkflowScan,
    build_status: String,
) -> (m: CiCdMetrics)
    ensures
        m.has_ci == (files.github_actions || files.travis || files.circleci || files.jenkins
            || files.gitlab),
        m.ci_providers@.map_values(|s: String| s@) == ci_providers(*files),
        m.workflow_files == (if files.github_actions {
            workflow_files
        } else {
            0
        }),
        m.build_status@ == build_status@,
        m.test_automation == (files.github_actions && workflows.test_automation),
        m.deployment_automation == (files.github_actions && workflows.deployment_automation),
        m.code_quality_checks == (files.github_actions && workflows.code_quality_checks),
        m.security_scanning == (files.github_actions && workflows.security_scanning),
        m.dependency_updates == (files.github_actions && workflows.dependency_updates),
        m.release_automation == (files.github_actions && workflows.release_automation),
{
    let mut providers: Vec<String> = Vec::new();
    let ghost views: Seq<Seq<char>> = seq![];
    if files.github_actions {
        providers.push(String::from_str("GitHub Actions"));
    }
    let ghost views = with_provider(views, "GitHub Actions"@, files.github_actions);
    assert(providers@.map_values(|s: String| s@) =~= views);
    if files.travis {
        providers.push(String::from_str("Travis CI"));
    }
    let ghost views = with_provider(views, "Travis CI"@, files.travis);
    assert(providers@.map_values(|s: String| s@) =~= views);
    if files.circleci {
        providers.push(String::from_str("CircleCI"));
    }
    let ghost views = with_provider(views, "CircleCI"@, files.circleci);
    assert(providers@.map_values(|s: String| s@) =~= views);
    if files.jenkins {
        providers.push(String::from_str("Jenkins"));
    }
    let ghost views = with_provider(views, "Jenkins"@, files.jenkins);
    assert(providers@.map_values(|s: String| s@) =~= views);
    if files.gitlab {
        providers.push(String::from_str("GitLab CI"));
    }
    let ghost views = with_provider(views, "GitLab CI"@, files.gitlab);
    assert(providers@.map_values(|s: String| s@) =~= views);
    let gh = files.github_actions;
    CiCdMetrics {
        has_ci: gh || files.travis || files.circleci || files.jenkins || files.gitlab,
        ci_providers: providers,
        workflow_files: if gh {
            workflow_files
        } else {
            0
        },
        build_status,
        test_automation: gh && workflows.test_automation,
        deployment_automation: gh && workflows.deployment_automation,
        code_quality_checks: gh && workflows.code_quality_checks,
        security_scanning: gh && workflows.security_scanning,
        dependency_updates: gh && workflows.dependency_updates,
        release_automation: gh && workflows.release_automation,
    }
}

} // verus!
