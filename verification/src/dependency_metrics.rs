//! Dependency counts, package managers and lock files of a repository,
//! from the manifests that were read from it.

use vstd::prelude::*;
use crate::ratio::Ratio;
use crate::text::lines;
use crate::freshness::{PackageManager, manager_name};
use crate::dependencies::{
    named_versions, pairs, go_mod_dependencies, count_go_mod_dependencies, requirement_lines,
    requirements, cargo_checkable, cargo_checkable_dependencies, npm_checkable,
    npm_checkable_dependencies, pip_checkable, pip_checkable_requirements, answered_outdated,
    latest_views, count_answered_outdated,
};

verus! {

/// Named result of parsing a text as a TOML document with
/// `str::parse::<toml::Table>` and taking the table under `key`: its
/// entries in the table's order, each with its value when that is a string
/// and, when the value is a table, that table's entries in order, each with
/// its value when that is a string. `None` when the text does not parse or
/// `key` holds no table.
pub uninterp spec fn toml_entries(content: Seq<char>, key: Seq<char>) -> Option<
    Seq<(Seq<char>, Option<Seq<char>>, Option<Seq<(Seq<char>, Option<Seq<char>>)>>)>,
>;

/// Named result of parsing a text with `serde_json::from_str::<Value>` and
/// taking the object under `key`: its entries in the object's order, each
/// with its value when that is a string. `None` when the text does not
/// parse or `key` holds no object.
pub uninterp spec fn json_entries(content: Seq<char>, key: Seq<char>) -> Option<
    Seq<(Seq<char>, Option<Seq<char>>)>,
>;

/// Parses `content` as a TOML document (`toml::Table`'s `FromStr`) and
/// returns the entries of the table under `key`, each with its string value
/// or its table's entries with their string values. The contract names the
/// result.
#[verifier::external_body]
fn toml_table_entries(content: &str, key: &str) -> (r: Option<
    Vec<(String, Option<String>, Option<Vec<(String, Option<String>)>>)>,
>)
    ensures
        match toml_entries(content@, key@) {
            Some(e) => r is Some && toml_views(r->0@) == e,
            None => r is None,
        },
{
    let document = content.parse::<toml::Table>().ok()?;
    let table = document.get(key)?.as_table()?;
    Some(
        table
            .iter()
            .map(|(name, value)| (
                name.clone(),
                value.as_str().map(|v| v.to_string()),
                value.as_table().map(|t| t.iter().map(|(k, v)| (k.clone(), v.as_str().map(|x| x.to_string()))).collect()),
            ))
            .collect(),
    )
}

/// The views of TOML entries as `toml_table_entries` gives them.
pub open spec fn toml_views(v: Seq<(String, Option<String>, Option<Vec<(String, Option<String>)>>)>) -> Seq<
    (Seq<char>, Option<Seq<char>>, Option<Seq<(Seq<char>, Option<Seq<char>>)>>),
> {
    v.map_values(
        |e: (String, Option<String>, Option<Vec<(String, Option<String>)>>)|
            (
                e.0@,
                match e.1 {
                    Some(s) => Some(s@),
                    None => None,
                },
                match e.2 {
                    Some(t) => Some(named_versions(t@)),
                    None => None,
                },
            ),
    )
}

/// The value of a table's `version` entry, when it is a string.
pub open spec fn table_version(t: Seq<(Seq<char>, Option<Seq<char>>)>) -> Option<Seq<char>>
    decreases t.len(),
{
    if t.len() == 0 {
        None
    } else if t[0].0 == "version"@ {
        t[0].1
    } else {
        table_version(t.drop_first())
    }
}

/// The version a Cargo dependency gives: its value when that is a string,
/// or the string `version` entry of its table (path and git dependencies
/// have none).
pub open spec fn cargo_version(e: (Seq<char>, Option<Seq<char>>, Option<Seq<(Seq<char>, Option<Seq<char>>)>>)) -> Option<Seq<char>> {
    match e.1 {
        Some(v) => Some(v),
        None => match e.2 {
            Some(t) => table_version(t),
            None => None,
        },
    }
}

/// Cargo dependencies with the versions they give.
pub open spec fn cargo_given_versions(es: Seq<(Seq<char>, Option<Seq<char>>, Option<Seq<(Seq<char>, Option<Seq<char>>)>>)>) -> Seq<(Seq<char>, Option<Seq<char>>)> {
    es.map_values(|e: (Seq<char>, Option<Seq<char>>, Option<Seq<(Seq<char>, Option<Seq<char>>)>>)| (e.0, cargo_version(e)))
}

/// The dependencies of a Cargo manifest's table under `key`, with the
/// versions they give.
pub open spec fn cargo_entries(content: Seq<char>, key: Seq<char>) -> Option<Seq<(Seq<char>, Option<Seq<char>>)>> {
    match toml_entries(content, key) {
        Some(es) => Some(cargo_given_versions(es)),
        None => None,
    }
}

fn table_version_of(t: &Vec<(String, Option<String>)>) -> (r: Option<String>)
    ensures
        match table_version(named_versions(t@)) {
            Some(v) => r matches Some(x) && x@ == v,
            None => r is None,
        },
{
    let ghost ts = named_versions(t@);
    let version = "version".to_owned();
    proof {
        reveal_strlit("version");
    }
    let mut i: usize = 0;
    assert(ts.skip(0) =~= ts);
    while i < t.len()
        invariant
            i <= t.len(),
            ts == named_versions(t@),
            version@ == "version"@,
            table_version(ts) == table_version(ts.skip(i as int)),
        decreases t.len() - i,
    {
        assert(ts.skip(i as int)[0] == ts[i as int]);
        assert(ts.skip(i as int).drop_first() =~= ts.skip(i + 1));
        if t[i].0 == version {
            return match &t[i].1 {
                Some(v) => Some(v.clone()),
                None => None,
            };
        }
        i += 1;
    }
    None
}

/// The dependencies of raw TOML entries with the versions they give.
fn cargo_entries_of(raw: &Vec<(String, Option<String>, Option<Vec<(String, Option<String>)>>)>) -> (r: Vec<
    (String, Option<String>),
>)
    ensures
        named_versions(r@) == cargo_given_versions(toml_views(raw@)),
{
    let mut r: Vec<(String, Option<String>)> = Vec::new();
    let mut i: usize = 0;
    while i < raw.len()
        invariant
            i <= raw.len(),
            named_versions(r@) =~= cargo_given_versions(toml_views(raw@)).take(i as int),
        decreases raw.len() - i,
    {
        let v = match &raw[i].1 {
            Some(s) => Some(s.clone()),
            None => match &raw[i].2 {
                Some(t) => table_version_of(t),
                None => None,
            },
        };
        let ghost before = r@;
        r.push((raw[i].0.clone(), v));
        assert(named_versions(r@) =~= named_versions(before).push(cargo_given_versions(toml_views(raw@))[i as int]));
        assert(cargo_given_versions(toml_views(raw@)).take(i + 1) =~= cargo_given_versions(toml_views(raw@)).take(i as int).push(
            cargo_given_versions(toml_views(raw@))[i as int],
        ));
        i += 1;
    }
    assert(cargo_given_versions(toml_views(raw@)).take(i as int) =~= cargo_given_versions(toml_views(raw@)));
    r
}

/// Parses `content` with `serde_json::from_str` and returns the entries
/// of the object under `key`, each with its value when that is a string.
/// The contract names the result.
#[verifier::external_body]
fn json_object_entries(content: &str, key: &str) -> (r: Option<Vec<(String, Option<String>)>>)
    ensures
        match json_entries(content@, key@) {
            Some(e) => r is Some && named_versions(r->0@) == e,
            None => r is None,
        },
{
    let value = serde_json::from_str::<serde_json::Value>(content).ok()?;
    let object = value.get(key)?.as_object()?;
    Some(object.iter().map(|(name, spec)| (name.clone(), spec.as_str().map(|v| v.to_string()))).collect())
}

/// The manifests and lock files read from a repository's root: the text
/// of each manifest that could be read, and whether each lock file exists.
/// `requirements.txt` and `go.mod` count when they exist, read or not.
pub struct DependencyFiles {
    pub cargo_toml: Option<String>,
    pub cargo_lock: bool,
    pub package_json: Option<String>,
    pub package_lock_json: bool,
    pub yarn_lock: bool,
    pub requirements_txt: Option<Option<String>>,
    pub pipfile: bool,
    pub poetry_lock: bool,
    pub go_mod: Option<Option<String>>,
    pub go_sum: bool,
}

/// What the manifests of a repository say of its dependencies.
pub struct DependencyScan {
    pub direct_dependencies: u32,
    pub dev_dependencies: u32,
    pub package_managers: Vec<PackageManager>,
    pub lock_files_present: bool,
    /// Cargo dependencies with a version, to look up.
    pub cargo_versions: Vec<(String, String)>,
    /// npm dependencies with a checkable version, to look up.
    pub npm_versions: Vec<(String, String)>,
    /// Python requirements with a version, to look up.
    pub pip_versions: Vec<(String, String)>,
}

impl DependencyScan {
    /// The dependencies to look up, over all registries.
    pub open spec fn checkable_count(&self) -> nat {
        self.cargo_versions@.len() + self.npm_versions@.len() + self.pip_versions@.len()
    }

    /// The dependencies to look up are direct dependencies: there are no
    /// more of them than the direct count reports (held at `u32::MAX`).
    pub open spec fn wf(&self) -> bool {
        capped(self.checkable_count() as int) <= self.direct_dependencies
    }
}

proof fn lemma_cargo_checkable_len(deps: Seq<(Seq<char>, Option<Seq<char>>)>)
    ensures
        cargo_checkable(deps).len() <= deps.len(),
    decreases deps.len(),
{
    if deps.len() > 0 {
        lemma_cargo_checkable_len(deps.drop_first());
    }
}

proof fn lemma_npm_checkable_len(deps: Seq<(Seq<char>, Option<Seq<char>>)>)
    ensures
        npm_checkable(deps).len() <= deps.len(),
    decreases deps.len(),
{
    if deps.len() > 0 {
        lemma_npm_checkable_len(deps.drop_first());
    }
}

proof fn lemma_pip_checkable_len(reqs: Seq<Seq<char>>)
    ensures
        pip_checkable(reqs).len() <= reqs.len(),
    decreases reqs.len(),
{
    if reqs.len() > 0 {
        lemma_pip_checkable_len(reqs.drop_first());
    }
}

/// The number of entries found, zero when none were.
pub open spec fn entry_count(e: Option<Seq<(Seq<char>, Option<Seq<char>>)>>) -> nat {
    match e {
        Some(s) => s.len(),
        None => 0,
    }
}

/// The entries found, none when none were.
pub open spec fn entries_or_none(e: Option<Seq<(Seq<char>, Option<Seq<char>>)>>) -> Seq<(Seq<char>, Option<Seq<char>>)> {
    match e {
        Some(s) => s,
        None => seq![],
    }
}

/// The entries of a manifest's table, when the manifest was read.
pub open spec fn manifest_entries(m: Option<String>, json: bool, key: Seq<char>) -> Option<Seq<(Seq<char>, Option<Seq<char>>)>> {
    match m {
        Some(c) => if json { json_entries(c@, key) } else { cargo_entries(c@, key) },
        None => None,
    }
}

/// The Python requirements: the trimmed lines of a readable
/// `requirements.txt` that are neither empty nor comments.
pub open spec fn python_requirements(f: DependencyFiles) -> Seq<Seq<char>> {
    match f.requirements_txt {
        Some(Some(c)) => requirement_lines(lines(c@)),
        _ => seq![],
    }
}

/// The requirements counted in a readable `go.mod`.
pub open spec fn go_count(f: DependencyFiles) -> nat {
    match f.go_mod {
        Some(Some(c)) => go_mod_dependencies(c@),
        _ => 0,
    }
}

/// Direct dependencies over all manifests.
pub open spec fn direct_count(f: DependencyFiles) -> nat {
    entry_count(manifest_entries(f.cargo_toml, false, "dependencies"@))
        + entry_count(manifest_entries(f.package_json, true, "dependencies"@))
        + python_requirements(f).len() + go_count(f)
}

/// Development dependencies over all manifests.
pub open spec fn dev_count(f: DependencyFiles) -> nat {
    entry_count(manifest_entries(f.cargo_toml, false, "dev-dependencies"@))
        + entry_count(manifest_entries(f.package_json, true, "devDependencies"@))
}

/// The package managers detected, in the order Cargo, npm, pip, Go.
pub open spec fn detected_managers(f: DependencyFiles) -> Seq<PackageManager> {
    (if f.cargo_toml is Some { seq![PackageManager::Cargo] } else { seq![] })
        + (if f.package_json is Some { seq![PackageManager::Npm] } else { seq![] })
        + (if f.requirements_txt is Some { seq![PackageManager::Pip] } else { seq![] })
        + (if f.go_mod is Some { seq![PackageManager::GoModules] } else { seq![] })
}

/// Whether a lock file is present: `Cargo.lock` beside a read `Cargo.toml`,
/// `package-lock.json` or `yarn.lock` beside a read `package.json`,
/// `Pipfile` or `poetry.lock`, or `go.sum` beside a `go.mod`.
pub open spec fn locks_present(f: DependencyFiles) -> bool {
    ||| (f.cargo_toml is Some && f.cargo_lock)
    ||| (f.package_json is Some && (f.package_lock_json || f.yarn_lock))
    ||| f.pipfile
    ||| f.poetry_lock
    ||| (f.go_mod is Some && f.go_sum)
}

/// A count as reported, held at `u32::MAX`.
pub open spec fn capped(n: int) -> u32 {
    if n > u32::MAX { u32::MAX } else { n as u32 }
}

proof fn lemma_capped_monotone(a: int, b: int)
    requires
        0 <= a <= b,
    ensures
        capped(a) <= capped(b),
{
}

/// The dependencies to look up are among the direct ones.
proof fn lemma_scan_checkable(
    f: DependencyFiles,
    c: Seq<(Seq<char>, Seq<char>)>,
    n: Seq<(Seq<char>, Seq<char>)>,
    p: Seq<(Seq<char>, Seq<char>)>,
)
    requires
        c == cargo_checkable(entries_or_none(manifest_entries(f.cargo_toml, false, "dependencies"@))),
        n == npm_checkable(entries_or_none(manifest_entries(f.package_json, true, "dependencies"@))),
        p == pip_checkable(python_requirements(f)),
    ensures
        capped((c.len() + n.len() + p.len()) as int) <= capped(direct_count(f) as int),
{
    lemma_cargo_checkable_len(entries_or_none(manifest_entries(f.cargo_toml, false, "dependencies"@)));
    lemma_npm_checkable_len(entries_or_none(manifest_entries(f.package_json, true, "dependencies"@)));
    lemma_pip_checkable_len(python_requirements(f));
    lemma_capped_monotone((c.len() + n.len() + p.len()) as int, direct_count(f) as int);
}

fn capped_add(a: u32, b: usize) -> (r: u32)
    ensures
        r == capped(a + b),
{
    if b > (u32::MAX - a) as usize {
        u32::MAX
    } else {
        a + b as u32
    }
}

fn entries_len(e: &Option<Vec<(String, Option<String>)>>) -> (n: usize)
    ensures
        n == match e {
            Some(v) => v.len(),
            None => 0,
        },
{
    match e {
        Some(v) => v.len(),
        None => 0,
    }
}

/// Reads what the manifests say of a repository's dependencies: counts
/// (held at `u32::MAX`), package managers, lock files, and the
/// dependencies whose latest versions can be looked up.
#[verifier::rlimit(40)]
pub fn scan_dependency_files(f: &DependencyFiles) -> (s: DependencyScan)
    ensures
        s.direct_dependencies == capped(direct_count(*f) as int),
        s.dev_dependencies == capped(dev_count(*f) as int),
        s.package_managers@ == detected_managers(*f),
        s.lock_files_present == locks_present(*f),
        pairs(s.cargo_versions@) == cargo_checkable(
            entries_or_none(manifest_entries(f.cargo_toml, false, "dependencies"@)),
        ),
        pairs(s.npm_versions@) == npm_checkable(
            entries_or_none(manifest_entries(f.package_json, true, "dependencies"@)),
        ),
        pairs(s.pip_versions@) == pip_checkable(python_requirements(*f)),
        s.wf(),
{
    let mut direct: u32 = 0;
    let mut dev: u32 = 0;
    let mut pms: Vec<PackageManager> = Vec::new();
    let mut lock = false;
    let mut cargo_versions: Vec<(String, String)> = Vec::new();
    let mut npm_versions: Vec<(String, String)> = Vec::new();
    let ghost cargo_deps = manifest_entries(f.cargo_toml, false, "dependencies"@);
    let ghost npm_deps = manifest_entries(f.package_json, true, "dependencies"@);
    assert(pairs(cargo_versions@) =~= cargo_checkable(entries_or_none(None)));

    let ghost c1 = entry_count(cargo_deps);
    let ghost c2 = entry_count(manifest_entries(f.cargo_toml, false, "dev-dependencies"@));
    match &f.cargo_toml {
        Some(content) => {
            pms.push(PackageManager::Cargo);
            let raw = toml_table_entries(content.as_str(), "dependencies");
            let deps = match &raw {
                Some(r) => Some(cargo_entries_of(r)),
                None => None,
            };
            direct = capped_add(direct, entries_len(&deps));
            match &deps {
                Some(d) => {
                    cargo_versions = cargo_checkable_dependencies(d);
                },
                None => {},
            }
            let dev_raw = toml_table_entries(content.as_str(), "dev-dependencies");
            let dev_n: usize = match &dev_raw {
                Some(r) => r.len(),
                None => 0,
            };
            dev = capped_add(dev, dev_n);
            if f.cargo_lock {
                lock = true;
            }
        },
        None => {},
    }
    assert(direct == capped(c1 as int));
    assert(dev == capped(c2 as int));

    let ghost n1 = entry_count(npm_deps);
    let ghost n2 = entry_count(manifest_entries(f.package_json, true, "devDependencies"@));
    assert(pairs(npm_versions@) =~= npm_checkable(entries_or_none(None)));
    match &f.package_json {
        Some(content) => {
            pms.push(PackageManager::Npm);
            let deps = json_object_entries(content.as_str(), "dependencies");
            direct = capped_add(direct, entries_len(&deps));
            match &deps {
                Some(d) => {
                    npm_versions = npm_checkable_dependencies(d);
                },
                None => {},
            }
            let dev_deps = json_object_entries(content.as_str(), "devDependencies");
            dev = capped_add(dev, entries_len(&dev_deps));
            if f.package_lock_json || f.yarn_lock {
                lock = true;
            }
        },
        None => {},
    }
    assert(direct == capped((c1 + n1) as int));
    assert(dev == capped((c2 + n2) as int));

    let mut reqs: Vec<String> = Vec::new();
    match &f.requirements_txt {
        Some(content) => {
            pms.push(PackageManager::Pip);
            match content {
                Some(c) => {
                    reqs = requirements(c.as_str());
                },
                None => {},
            }
        },
        None => {},
    }
    assert(reqs@.map_values(|r: String| r@) =~= python_requirements(*f));
    assert(reqs.len() == python_requirements(*f).len()) by {
        assert(reqs@.map_values(|r: String| r@).len() == reqs@.len());
    }
    direct = capped_add(direct, reqs.len());
    if f.pipfile || f.poetry_lock {
        lock = true;
    }
    let pip_versions = pip_checkable_requirements(&reqs);

    match &f.go_mod {
        Some(content) => {
            pms.push(PackageManager::GoModules);
            match content {
                Some(c) => {
                    let g = count_go_mod_dependencies(c.as_str());
                    if g > u32::MAX as u64 {
                        direct = u32::MAX;
                    } else {
                        direct = capped_add(direct, g as usize);
                    }
                },
                None => {},
            }
            if f.go_sum {
                lock = true;
            }
        },
        None => {},
    }
    assert(pms@ =~= detected_managers(*f));
    proof {
        lemma_scan_checkable(*f, pairs(cargo_versions@), pairs(npm_versions@), pairs(pip_versions@));
    }
    DependencyScan {
        direct_dependencies: direct,
        dev_dependencies: dev,
        package_managers: pms,
        lock_files_present: lock,
        cargo_versions,
        npm_versions,
        pip_versions,
    }
}

/// Registries are asked about outdated dependencies only for projects with
/// at most 50 dependencies in all.
pub open spec fn checks_outdated(total: u32) -> bool {
    total <= 50
}

/// Total of direct and development dependencies, held at `u32::MAX`.
pub fn total_dependencies(s: &DependencyScan) -> (t: u32)
    ensures
        t == capped(s.direct_dependencies + s.dev_dependencies),
{
    capped_add(s.direct_dependencies, s.dev_dependencies as usize)
}

/// Whether the registries are to be asked which dependencies are outdated.
pub fn should_check_outdated(s: &DependencyScan) -> (b: bool)
    ensures
        b == checks_outdated(capped(s.direct_dependencies + s.dev_dependencies)),
{
    total_dependencies(s) <= 50
}

/// The names under which package managers are reported.
pub open spec fn manager_names(pms: Seq<PackageManager>) -> Seq<Seq<char>> {
    pms.map_values(|p: PackageManager| manager_name(p))
}

/// Dependency management metrics.
#[derive(Clone, Debug)]
pub struct DependencyMetrics {
    pub total_dependencies: u32,
    pub direct_dependencies: u32,
    pub dev_dependencies: u32,
    pub outdated_dependencies: u32,
    pub vulnerable_dependencies: u32,
    pub dependency_freshness_score: Ratio,
    pub package_managers: Vec<String>,
    pub lock_files_present: bool,
}

/// The latest versions the registries gave for the dependencies to look
/// up, in the order of a scan's lists (`None` where a lookup failed):
/// crates.io for Cargo, the npm registry, PyPI for pip.
pub struct RegistryAnswers {
    pub cargo: Vec<Option<String>>,
    pub npm: Vec<Option<String>>,
    pub pip: Vec<Option<String>>,
}

/// The dependencies of a scan that the registries' answers show to be
/// outdated, over all three registries.
pub open spec fn registry_outdated(s: DependencyScan, a: RegistryAnswers) -> nat {
    answered_outdated(pairs(s.cargo_versions@), latest_views(a.cargo@))
        + answered_outdated(pairs(s.npm_versions@), latest_views(a.npm@))
        + answered_outdated(pairs(s.pip_versions@), latest_views(a.pip@))
}

/// The outdated dependencies reported: those the registries' answers show,
/// when the registries were asked and answered in time, and none otherwise.
pub open spec fn reported_outdated(s: DependencyScan, answers: Option<RegistryAnswers>) -> nat {
    match answers {
        Some(a) => registry_outdated(s, a),
        None => 0,
    }
}

/// The number of dependencies of a scan that the registries' answers show
/// to be outdated; never more than there are dependencies to look up.
pub fn count_registry_outdated(s: &DependencyScan, a: &RegistryAnswers) -> (n: u64)
    requires
        s.checkable_count() <= u64::MAX,
    ensures
        n == registry_outdated(*s, *a),
        n <= s.checkable_count(),
{
    let c = count_answered_outdated(&s.cargo_versions, &a.cargo);
    let m = count_answered_outdated(&s.npm_versions, &a.npm);
    let p = count_answered_outdated(&s.pip_versions, &a.pip);
    c + m + p
}

/// Dependency metrics from a scan, the registries' answers on the latest
/// versions of its dependencies (`None` when they were not had in time;
/// not used for projects with more than 50 dependencies), the number of
/// open Dependabot alerts, and the freshness of the lock files. No more
/// dependencies are outdated than are direct.
pub fn collect_dependency_metrics(
    s: &DependencyScan,
    answers: &Option<RegistryAnswers>,
    vulnerable: u32,
    freshness: Ratio,
) -> (m: DependencyMetrics)
    requires
        s.wf(),
    ensures
        m.total_dependencies == capped(s.direct_dependencies + s.dev_dependencies),
        m.direct_dependencies == s.direct_dependencies,
        m.dev_dependencies == s.dev_dependencies,
        m.outdated_dependencies == if checks_outdated(m.total_dependencies) {
            reported_outdated(*s, *answers)
        } else {
            0
        },
        m.outdated_dependencies <= m.direct_dependencies,
        m.vulnerable_dependencies == vulnerable,
        m.dependency_freshness_score == freshness,
        m.package_managers@.map_values(|n: String| n@) == manager_names(s.package_managers@),
        m.lock_files_present == s.lock_files_present,
{
    let total = total_dependencies(s);
    let mut names: Vec<String> = Vec::new();
    let mut i: usize = 0;
    while i < s.package_managers.len()
        invariant
            i <= s.package_managers.len(),
            names@.map_values(|n: String| n@) =~= manager_names(s.package_managers@.take(i as int)),
        decreases s.package_managers.len() - i,
    {
        let n = s.package_managers[i].name();
        let owned = n.to_owned();
        let ghost before = names@;
        names.push(owned);
        assert(names@.map_values(|n: String| n@) =~= before.map_values(|n: String| n@).push(n@));
        assert(s.package_managers@.take(i + 1) =~= s.package_managers@.take(i as int).push(
            s.package_managers@[i as int],
        ));
        assert(manager_names(s.package_managers@.take(i + 1)) =~= manager_names(
            s.package_managers@.take(i as int),
        ).push(manager_name(s.package_managers@[i as int])));
        i += 1;
    }
    assert(s.package_managers@.take(i as int) =~= s.package_managers@);
    let outdated: u32 = if total <= 50 {
        match answers {
            Some(a) => {
                let n = count_registry_outdated(s, a);
                n as u32
            },
            None => 0,
        }
    } else {
        0
    };
    DependencyMetrics {
        total_dependencies: total,
        direct_dependencies: s.direct_dependencies,
        dev_dependencies: s.dev_dependencies,
        outdated_dependencies: outdated,
        vulnerable_dependencies: vulnerable,
        dependency_freshness_score: freshness,
        package_managers: names,
        lock_files_present: s.lock_files_present,
    }
}

} // verus!
