use kodegen_github::dependencies::{
    cargo_checkable_dependencies, count_answered_outdated, count_go_mod_dependencies, is_outdated,
    npm_checkable_dependencies, npm_version_checkable, parse_pip_requirement,
    pip_checkable_requirements, requirements,
};
use kodegen_github::dependency_metrics::{
    collect_dependency_metrics, count_registry_outdated, scan_dependency_files,
    should_check_outdated, total_dependencies, DependencyFiles, RegistryAnswers,
};
use kodegen_github::freshness::{
    age_tenths, calculate_dependency_freshness, FileStamp, LockStamps, PackageManager,
};
use kodegen_github::ratio::Ratio;
use kodegen_github::security::count_open_alerts;

fn s(x: &str) -> String {
    x.to_string()
}

fn no_files() -> DependencyFiles {
    DependencyFiles {
        cargo_toml: None,
        cargo_lock: false,
        package_json: None,
        package_lock_json: false,
        yarn_lock: false,
        requirements_txt: None,
        pipfile: false,
        poetry_lock: false,
        go_mod: None,
        go_sum: false,
    }
}

#[test]
fn go_mod_requirements_are_counted() {
    let go = "module example.com/x\n\ngo 1.21\n\nrequire (\n\tgithub.com/a/b v1.0.0\n\t// indirect note\n\n\tgithub.com/c/d v2.0.0\n)\n\nrequire github.com/e/f v0.1.0\n";
    assert_eq!(count_go_mod_dependencies(go), 3);
    assert_eq!(count_go_mod_dependencies(""), 0);
}

#[test]
fn requirement_lines() {
    let r = requirements("requests==2.31.0\n# pinned\n\n  flask>=2.0,<3.0  \n-r other.txt\n");
    assert_eq!(r, vec![s("requests==2.31.0"), s("flask>=2.0,<3.0"), s("-r other.txt")]);
}

#[test]
fn pip_requirements_split_at_the_first_operator() {
    assert_eq!(parse_pip_requirement("requests==2.31.0"), Some((s("requests"), s("2.31.0"))));
    assert_eq!(parse_pip_requirement("flask>=2.0,<3.0"), Some((s("flask"), s("2.0"))));
    assert_eq!(parse_pip_requirement("numpy ~= 1.26"), Some((s("numpy"), s("1.26"))));
    assert_eq!(parse_pip_requirement("django"), None);
    assert_eq!(parse_pip_requirement("# comment==1"), None);
    assert_eq!(parse_pip_requirement("-e git+x==1"), None);
    assert_eq!(parse_pip_requirement("==1.0"), None);
    let reqs = vec![s("a==1"), s("b"), s("c<2")];
    assert_eq!(pip_checkable_requirements(&reqs), vec![(s("a"), s("1")), (s("c"), s("2"))]);
}

#[test]
fn npm_versions_that_can_be_looked_up() {
    assert!(npm_version_checkable("^1.2.3"));
    assert!(!npm_version_checkable(""));
    assert!(!npm_version_checkable("latest"));
    assert!(!npm_version_checkable("*"));
    assert!(!npm_version_checkable("git+https://x"));
    assert!(!npm_version_checkable("file:../y"));
    assert!(!npm_version_checkable("github:o/r"));
    let deps = vec![(s("a"), Some(s("1.0.0"))), (s("b"), None), (s("c"), Some(s("latest")))];
    assert_eq!(npm_checkable_dependencies(&deps), vec![(s("a"), s("1.0.0"))]);
}

#[test]
fn cargo_dependencies_with_versions() {
    let deps = vec![(s("serde"), Some(s("1.0"))), (s("local"), None)];
    assert_eq!(cargo_checkable_dependencies(&deps), vec![(s("serde"), s("1.0"))]);
}

#[test]
fn outdated_versions() {
    assert!(is_outdated("^1.0.0", "1.2.0"));
    assert!(is_outdated(">=0.9.1", "v1.0.0"));
    assert!(!is_outdated("2.0.0", "1.9.9"));
    assert!(!is_outdated("1.0.0", "1.0.0"));
    assert!(!is_outdated("not-a-version", "1.0.0"));
    assert!(!is_outdated("1.0", "2.0.0"));
    let deps = vec![(s("a"), s("1.0.0")), (s("b"), s("~2.0.0")), (s("c"), s("0.1.0")), (s("d"), s("0.1.0"))];
    let answers = vec![Some(s("1.0.1")), Some(s("2.0.0")), Some(s("0.2.0")), None];
    assert_eq!(count_answered_outdated(&deps, &answers), 2);
    // A dependency without an answer is not counted.
    assert_eq!(count_answered_outdated(&deps, &vec![None, None, Some(s("0.2.0"))]), 1);
    assert_eq!(count_answered_outdated(&deps, &vec![]), 0);
}

#[test]
fn outdated_is_irreflexive_and_one_way() {
    for v in ["1.0.0", "v2.3.4", "^1.0.0", "1.0.0-alpha", "x"] {
        assert!(!is_outdated(v, v));
    }
    assert!(is_outdated("1.0.0-alpha", "1.0.0"));
    assert!(!is_outdated("1.0.0", "1.0.0-alpha"));
    assert!(is_outdated("0.9.9", "v1.0.0"));
    assert!(!is_outdated("v1.0.0", "0.9.9"));
}

#[test]
fn nothing_found_without_manifests() {
    let scan = scan_dependency_files(&no_files());
    assert_eq!(scan.direct_dependencies, 0);
    assert_eq!(scan.dev_dependencies, 0);
    assert!(scan.package_managers.is_empty());
    assert!(!scan.lock_files_present);
}

#[test]
fn npm_manifest_is_read() {
    let mut f = no_files();
    f.package_json = Some(s(
        r#"{"name":"x","dependencies":{"serde":"^1.0.0","x":"latest","y":{"v":1}},"devDependencies":{"jest":"29"}}"#,
    ));
    f.yarn_lock = true;
    let scan = scan_dependency_files(&f);
    assert_eq!(scan.direct_dependencies, 3);
    assert_eq!(scan.dev_dependencies, 1);
    assert_eq!(scan.package_managers, vec![PackageManager::Npm]);
    assert!(scan.lock_files_present);
    assert_eq!(scan.npm_versions, vec![(s("serde"), s("^1.0.0"))]);
}

#[test]
fn unparsable_manifest_still_names_its_manager() {
    let mut f = no_files();
    f.package_json = Some(s("{ not json"));
    let scan = scan_dependency_files(&f);
    assert_eq!(scan.direct_dependencies, 0);
    assert_eq!(scan.package_managers, vec![PackageManager::Npm]);
    assert!(!scan.lock_files_present);
}

#[test]
fn cargo_manifest_document_is_read() {
    let mut f = no_files();
    f.cargo_toml = Some(s(
        "[package]\nname = \"x\"\nversion = \"0.1.0\"\n\n[dependencies]\nserde = \"1.0\"\nlocal = { path = \"../x\" }\ntokio = { version = \"1\", features = [\"full\"] }\n\n[dev-dependencies]\nproptest = \"1\"\n",
    ));
    f.cargo_lock = true;
    let scan = scan_dependency_files(&f);
    assert_eq!(scan.direct_dependencies, 3);
    assert_eq!(scan.dev_dependencies, 1);
    assert_eq!(scan.package_managers, vec![PackageManager::Cargo]);
    assert!(scan.lock_files_present);
    assert_eq!(scan.cargo_versions.len(), 2);
    assert!(scan.cargo_versions.contains(&(s("serde"), s("1.0"))));
    assert!(scan.cargo_versions.contains(&(s("tokio"), s("1"))));
}

#[test]
fn python_and_go_manifests() {
    let mut f = no_files();
    f.requirements_txt = Some(Some(s("requests==2.0.0\n# c\nflask\n")));
    f.go_mod = Some(Some(s("require a v1\n")));
    f.go_sum = true;
    let scan = scan_dependency_files(&f);
    assert_eq!(scan.direct_dependencies, 3);
    assert_eq!(scan.package_managers, vec![PackageManager::Pip, PackageManager::GoModules]);
    assert!(scan.lock_files_present);
    assert_eq!(scan.pip_versions, vec![(s("requests"), s("2.0.0"))]);
    // An unreadable requirements file still names pip.
    let mut g = no_files();
    g.requirements_txt = Some(None);
    g.poetry_lock = true;
    let scan = scan_dependency_files(&g);
    assert_eq!(scan.direct_dependencies, 0);
    assert_eq!(scan.package_managers, vec![PackageManager::Pip]);
    assert!(scan.lock_files_present);
}

#[test]
fn outdated_checks_only_for_small_projects() {
    let mut f = no_files();
    let mut text = String::new();
    for i in 0..51 {
        text.push_str(&format!("p{i}==1.0.0\n"));
    }
    f.requirements_txt = Some(Some(text));
    let scan = scan_dependency_files(&f);
    assert_eq!(total_dependencies(&scan), 51);
    assert!(!should_check_outdated(&scan));
    let all_newer = RegistryAnswers { cargo: vec![], npm: vec![], pip: vec![Some(s("9.0.0")); 51] };
    assert_eq!(count_registry_outdated(&scan, &all_newer), 51);
    let m = collect_dependency_metrics(&scan, &Some(all_newer), 2, Ratio { num: 4, den: 10 });
    assert_eq!(m.outdated_dependencies, 0);
    assert_eq!(m.vulnerable_dependencies, 2);
    assert_eq!(m.package_managers, vec![s("pip")]);
    let mut small = no_files();
    small.requirements_txt = Some(Some(s("a==1.0.0\n")));
    let scan = scan_dependency_files(&small);
    assert!(should_check_outdated(&scan));
    let newer = RegistryAnswers { cargo: vec![], npm: vec![], pip: vec![Some(s("2.0.0"))] };
    let m = collect_dependency_metrics(&scan, &Some(newer), 0, Ratio { num: 1, den: 1 });
    assert_eq!(m.outdated_dependencies, 1);
    assert!(m.outdated_dependencies <= m.direct_dependencies);
    let m = collect_dependency_metrics(&scan, &None, 0, Ratio { num: 1, den: 1 });
    assert_eq!(m.outdated_dependencies, 0);
    assert_eq!(m.total_dependencies, 1);
    assert_eq!(m.dependency_freshness_score, Ratio { num: 1, den: 1 });
}

#[test]
fn open_alerts() {
    assert_eq!(count_open_alerts(&Some(vec![true, false, true])), 2);
    assert_eq!(count_open_alerts(&None), 0);
}

const NOW: i64 = 1_700_000_000;
const DAY: i64 = 86400;

fn stamps() -> LockStamps {
    LockStamps {
        cargo_lock: FileStamp::Absent,
        package_lock_json: FileStamp::Absent,
        yarn_lock: FileStamp::Absent,
        pnpm_lock_yaml: FileStamp::Absent,
        pipfile_lock: FileStamp::Absent,
        poetry_lock: FileStamp::Absent,
        requirements_txt: FileStamp::Absent,
        go_sum: FileStamp::Absent,
    }
}

#[test]
fn freshness_by_age() {
    assert_eq!(age_tenths(NOW, NOW - 30 * DAY), 10);
    assert_eq!(age_tenths(NOW, NOW - 31 * DAY), 9);
    assert_eq!(age_tenths(NOW, NOW - 90 * DAY - 1), 9);
    assert_eq!(age_tenths(NOW, NOW - 91 * DAY), 8);
    assert_eq!(age_tenths(NOW, NOW - 200 * DAY), 6);
    assert_eq!(age_tenths(NOW, NOW - 400 * DAY), 4);
    assert_eq!(age_tenths(NOW, NOW - 1000 * DAY), 2);
    assert_eq!(age_tenths(NOW, NOW - 2000 * DAY), 1);
    // A modification time in the future is neutral.
    assert_eq!(age_tenths(NOW, NOW + 1), 5);
}

#[test]
fn freshness_without_managers_is_zero() {
    let r = calculate_dependency_freshness(NOW, &vec![], &stamps());
    assert_eq!(r, Ratio { num: 0, den: 1 });
}

#[test]
fn cargo_without_lock_does_not_count() {
    let r = calculate_dependency_freshness(NOW, &vec![PackageManager::Cargo], &stamps());
    assert_eq!(r, Ratio { num: 4, den: 10 });
}

#[test]
fn managers_without_locks_score_four_tenths() {
    let r = calculate_dependency_freshness(
        NOW,
        &vec![PackageManager::Npm, PackageManager::GoModules],
        &stamps(),
    );
    assert_eq!(r, Ratio { num: 8, den: 20 });
}

#[test]
fn freshness_is_the_mean_over_managers() {
    let mut l = stamps();
    l.cargo_lock = FileStamp::Modified(NOW - 10 * DAY);
    // npm takes the most recent of its lock files.
    l.package_lock_json = FileStamp::Modified(NOW - 500 * DAY);
    l.yarn_lock = FileStamp::Modified(NOW - 100 * DAY);
    // pip falls back to requirements.txt, whose time cannot be read.
    l.requirements_txt = FileStamp::Present;
    let r = calculate_dependency_freshness(
        NOW,
        &vec![PackageManager::Cargo, PackageManager::Npm, PackageManager::Pip],
        &l,
    );
    // (10 + 8 + 5) / 3 tenths
    assert_eq!(r, Ratio { num: 23, den: 30 });
    assert_eq!(PackageManager::GoModules.name(), "Go modules");
}
