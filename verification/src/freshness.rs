//! Dependency freshness, scored by how long ago the lock files changed.

use vstd::prelude::*;
use crate::ratio::Ratio;

verus! {

/// The package managers a repository is recognised to use.
#[derive(Debug, Clone, Copy, PartialEq, Eq, Structural)]
pub enum PackageManager {
    Cargo,
    Npm,
    Pip,
    GoModules,
}

/// The name under which a package manager is reported.
pub open spec fn manager_name(pm: PackageManager) -> Seq<char> {
    match pm {
        PackageManager::Cargo => "Cargo"@,
        PackageManager::Npm => "npm"@,
        PackageManager::Pip => "pip"@,
        PackageManager::GoModules => "Go modules"@,
    }
}

impl PackageManager {
    /// The name under which this package manager is reported.
    pub fn name(&self) -> (s: &'static str)
        ensures
            s@ == manager_name(*self),
    {
        match self {
            PackageManager::Cargo => "Cargo",
            PackageManager::Npm => "npm",
            PackageManager::Pip => "pip",
            PackageManager::GoModules => "Go modules",
        }
    }
}

/// What the file system shows of a file: absent, present without a
/// readable modification time, or modified at a time in whole seconds
/// since the Unix epoch.
#[derive(Debug, Clone, Copy, PartialEq, Eq, Structural)]
pub enum FileStamp {
    Absent,
    Present,
    Modified(i64),
}

/// The lock files (and their fallbacks) that freshness is read from.
#[derive(Debug, Clone, Copy)]
pub struct LockStamps {
    pub cargo_lock: FileStamp,
    pub package_lock_json: FileStamp,
    pub yarn_lock: FileStamp,
    pub pnpm_lock_yaml: FileStamp,
    pub pipfile_lock: FileStamp,
    pub poetry_lock: FileStamp,
    pub requirements_txt: FileStamp,
    pub go_sum: FileStamp,
}

/// Freshness in tenths for an age in whole days: a month or less scores
/// 10, three months 9, six months 8, a year 6, two years 4, three years 2,
/// anything older 1.
pub open spec fn days_score(days: int) -> nat {
    if days <= 30 {
        10
    } else if days <= 90 {
        9
    } else if days <= 180 {
        8
    } else if days <= 365 {
        6
    } else if days <= 730 {
        4
    } else if days <= 1095 {
        2
    } else {
        1
    }
}

/// Freshness in tenths of a file modified at `modified` seen at `now`; a
/// modification time in the future scores the neutral 5.
pub open spec fn age_score(now: int, modified: int) -> nat {
    if modified > now {
        5
    } else {
        days_score((now - modified) / 86400)
    }
}

/// Freshness in tenths of one lock file that exists: neutral 5 when its
/// time cannot be read.
pub open spec fn stamp_score(now: int, s: FileStamp) -> nat {
    match s {
        FileStamp::Modified(t) => age_score(now, t as int),
        _ => 5,
    }
}

/// The latest modification time among files, if any has one.
pub open spec fn most_recent(stamps: Seq<FileStamp>) -> Option<i64>
    decreases stamps.len(),
{
    if stamps.len() == 0 {
        None
    } else {
        let rest = most_recent(stamps.drop_last());
        match stamps.last() {
            FileStamp::Modified(t) => match rest {
                Some(m) => Some(if t > m { t } else { m }),
                None => Some(t),
            },
            _ => rest,
        }
    }
}

/// The score of one package manager in tenths, or `None` where it is not
/// counted (a Cargo project without `Cargo.lock`). A manager with no lock
/// file scores 4.
pub open spec fn manager_score(now: int, pm: PackageManager, l: LockStamps) -> Option<nat> {
    match pm {
        PackageManager::Cargo => match l.cargo_lock {
            FileStamp::Absent => None,
            s => Some(stamp_score(now, s)),
        },
        PackageManager::Npm => match most_recent(
            seq![l.package_lock_json, l.yarn_lock, l.pnpm_lock_yaml],
        ) {
            Some(t) => Some(age_score(now, t as int)),
            None => Some(4),
        },
        PackageManager::Pip => match most_recent(seq![l.pipfile_lock, l.poetry_lock]) {
            Some(t) => Some(age_score(now, t as int)),
            None => match l.requirements_txt {
                FileStamp::Absent => Some(4),
                s => Some(stamp_score(now, s)),
            },
        },
        PackageManager::GoModules => match l.go_sum {
            FileStamp::Absent => Some(4),
            s => Some(stamp_score(now, s)),
        },
    }
}

/// Sum and number of the scores of the package managers that count.
pub open spec fn score_totals(now: int, pms: Seq<PackageManager>, l: LockStamps) -> (nat, nat)
    decreases pms.len(),
{
    if pms.len() == 0 {
        (0, 0)
    } else {
        let (s, n) = score_totals(now, pms.drop_last(), l);
        match manager_score(now, pms.last(), l) {
            Some(x) => (s + x, n + 1),
            None => (s, n),
        }
    }
}

/// Dependency freshness at time `now`: nothing without a package manager,
/// 0.4 when no manager counts, else the mean of the managers' scores.
pub open spec fn freshness_at(now: int, pms: Seq<PackageManager>, l: LockStamps) -> Ratio {
    if pms.len() == 0 {
        Ratio { num: 0, den: 1 }
    } else {
        let (s, n) = score_totals(now, pms, l);
        if n == 0 {
            Ratio { num: 4, den: 10 }
        } else {
            Ratio { num: s as u64, den: (10 * n) as u64 }
        }
    }
}

fn days_tenths(days: u64) -> (r: u64)
    ensures
        r == days_score(days as int),
{
    if days <= 30 {
        10
    } else if days <= 90 {
        9
    } else if days <= 180 {
        8
    } else if days <= 365 {
        6
    } else if days <= 730 {
        4
    } else if days <= 1095 {
        2
    } else {
        1
    }
}

/// Freshness in tenths of a file modified at `modified`, seen at `now`.
pub fn age_tenths(now: i64, modified: i64) -> (r: u64)
    ensures
        r == age_score(now as int, modified as int),
{
    if modified > now {
        5
    } else {
        let age: i128 = now as i128 - modified as i128;
        let days: i128 = age / 86400;
        assert(0 <= days <= u64::MAX);
        days_tenths(days as u64)
    }
}

fn stamp_tenths(now: i64, s: FileStamp) -> (r: u64)
    ensures
        r == stamp_score(now as int, s),
{
    match s {
        FileStamp::Modified(t) => age_tenths(now, t),
        _ => 5,
    }
}

fn latest_of(stamps: &[FileStamp]) -> (r: Option<i64>)
    ensures
        r == most_recent(stamps@),
{
    let mut best: Option<i64> = None;
    let mut i: usize = 0;
    while i < stamps.len()
        invariant
            i <= stamps.len(),
            best == most_recent(stamps@.take(i as int)),
        decreases stamps.len() - i,
    {
        assert(stamps@.take(i + 1).drop_last() =~= stamps@.take(i as int));
        match stamps[i] {
            FileStamp::Modified(t) => {
                best = match best {
                    Some(m) => Some(if t > m { t } else { m }),
                    None => Some(t),
                };
            },
            _ => {},
        }
        i += 1;
    }
    assert(stamps@.take(stamps.len() as int) =~= stamps@);
    best
}

fn manager_tenths(now: i64, pm: PackageManager, l: &LockStamps) -> (r: Option<u64>)
    ensures
        match manager_score(now as int, pm, *l) {
            Some(x) => r == Some(x as u64),
            None => r is None,
        },
        r matches Some(x) ==> x <= 10,
{
    match pm {
        PackageManager::Cargo => match l.cargo_lock {
            FileStamp::Absent => None,
            s => Some(stamp_tenths(now, s)),
        },
        PackageManager::Npm => {
            let v = [l.package_lock_json, l.yarn_lock, l.pnpm_lock_yaml];
            assert(v@ =~= seq![l.package_lock_json, l.yarn_lock, l.pnpm_lock_yaml]);
            match latest_of(&v) {
                Some(t) => Some(age_tenths(now, t)),
                None => Some(4),
            }
        },
        PackageManager::Pip => {
            let v = [l.pipfile_lock, l.poetry_lock];
            assert(v@ =~= seq![l.pipfile_lock, l.poetry_lock]);
            match latest_of(&v) {
                Some(t) => Some(age_tenths(now, t)),
                None => match l.requirements_txt {
                    FileStamp::Absent => Some(4),
                    s => Some(stamp_tenths(now, s)),
                },
            }
        },
        PackageManager::GoModules => match l.go_sum {
            FileStamp::Absent => Some(4),
            s => Some(stamp_tenths(now, s)),
        },
    }
}

/// Dependency freshness of the given package managers at time `now`
/// (seconds since the Unix epoch), from what the file system showed of
/// their lock files. The score is held in tenths over `10 * n` for `n`
/// scored managers, so `n` is bounded by what that denominator can hold.
pub fn calculate_dependency_freshness(now: i64, pms: &Vec<PackageManager>, locks: &LockStamps) -> (r: Ratio)
    requires
        pms.len() <= u64::MAX / 10,
    ensures
        r == freshness_at(now as int, pms@, *locks),
        r.wf(),
{
    if pms.len() == 0 {
        return Ratio { num: 0, den: 1 };
    }
    let mut sum: u64 = 0;
    let mut n: u64 = 0;
    let mut i: usize = 0;
    while i < pms.len()
        invariant
            i <= pms.len() <= u64::MAX / 10,
            score_totals(now as int, pms@.take(i as int), *locks) == (sum as nat, n as nat),
            n <= i,
            sum <= 10 * n,
        decreases pms.len() - i,
    {
        assert(pms@.take(i + 1).drop_last() =~= pms@.take(i as int));
        match manager_tenths(now, pms[i], locks) {
            Some(x) => {
                sum = sum + x;
                n = n + 1;
            },
            None => {},
        }
        i += 1;
    }
    assert(pms@.take(pms.len() as int) =~= pms@);
    if n == 0 {
        Ratio { num: 4, den: 10 }
    } else {
        Ratio { num: sum, den: 10 * n }
    }
}


/// Freshness never rises with age: a lock file changed longer ago scores
/// no more than one changed more recently.
pub proof fn law_freshness_decays(d1: int, d2: int)
    requires
        d1 <= d2,
    ensures
        days_score(d2) <= days_score(d1),
{
}

/// Every package manager's score lies between 0.1 and 1.
proof fn lemma_manager_score_range(now: int, pm: PackageManager, l: LockStamps)
    ensures
        manager_score(now, pm, l) matches Some(x) ==> 1 <= x <= 10,
{
}

proof fn lemma_totals_range(now: int, pms: Seq<PackageManager>, l: LockStamps)
    ensures
        score_totals(now, pms, l).1 <= score_totals(now, pms, l).0 <= 10 * score_totals(now, pms, l).1,
    decreases pms.len(),
{
    if pms.len() > 0 {
        lemma_totals_range(now, pms.drop_last(), l);
        lemma_manager_score_range(now, pms.last(), l);
    }
}

/// Dependency freshness is a proportion: between 0 and 1, and at least 0.1
/// for a repository with a package manager.
pub proof fn law_freshness_in_range(now: int, pms: Seq<PackageManager>, l: LockStamps)
    requires
        pms.len() <= u64::MAX / 10,
    ensures
        freshness_at(now, pms, l).wf(),
        freshness_at(now, pms, l).num <= freshness_at(now, pms, l).den,
        pms.len() > 0 ==> 10 * freshness_at(now, pms, l).num >= freshness_at(now, pms, l).den,
{
    lemma_totals_range(now, pms, l);
    lemma_totals_len(now, pms, l);
}

proof fn lemma_totals_len(now: int, pms: Seq<PackageManager>, l: LockStamps)
    ensures
        score_totals(now, pms, l).1 <= pms.len(),
    decreases pms.len(),
{
    if pms.len() > 0 {
        lemma_totals_len(now, pms.drop_last(), l);
    }
}

/// The freshness of a single package manager: its score in tenths, or the
/// default 0.4 where it does not count.
proof fn lemma_single_manager(now: int, pm: PackageManager, l: LockStamps)
    ensures
        freshness_at(now, seq![pm], l) == match manager_score(now, pm, l) {
            Some(x) => Ratio { num: x as u64, den: 10 },
            None => Ratio { num: 4, den: 10 },
        },
{
    let s = seq![pm];
    assert(s.len() == 1);
    assert(s.drop_last() =~= Seq::<PackageManager>::empty());
    assert(s.last() == pm);
    assert(score_totals(now, s.drop_last(), l) == (0nat, 0nat));
    assert(score_totals(now, s, l) == match manager_score(now, pm, l) {
        Some(x) => (x, 1nat),
        None => (0nat, 0nat),
    });
}

/// The tenths a lock file modified `age` seconds before now earns, for a
/// non-negative age: 10 within 30 days, 9 within 90, 8 within 180, 6
/// within a year, 4 within two, 2 within three, and 1 after that.
pub open spec fn tenths_for_age(age: int) -> nat {
    if age < 31 * 86400 {
        10
    } else if age < 91 * 86400 {
        9
    } else if age < 181 * 86400 {
        8
    } else if age < 366 * 86400 {
        6
    } else if age < 731 * 86400 {
        4
    } else if age < 1096 * 86400 {
        2
    } else {
        1
    }
}

proof fn lemma_age_tenths(now: int, t: int)
    requires
        t <= now,
    ensures
        age_score(now, t) == tenths_for_age(now - t),
{
    let d = (now - t) / 86400;
    assert(d * 86400 <= now - t < (d + 1) * 86400);
}

/// A Go modules project is scored by the age of `go.sum` just as a Cargo
/// project is by the age of `Cargo.lock`: a `go.sum` modified `a` seconds
/// ago earns the tenths for that age (a full score within 30 days); one in
/// the future, or present without a readable time, earns 0.5; without
/// `go.sum` the score is 0.4, and a `go.sum` changed within the last two
/// years never scores below that.
pub proof fn law_go_sum_freshness(now: i64, t: i64, l: LockStamps)
    ensures
        ({
            let with = LockStamps { go_sum: FileStamp::Modified(t), ..l };
            let score = freshness_at(now as int, seq![PackageManager::GoModules], with);
            &&& score == freshness_at(
                now as int,
                seq![PackageManager::Cargo],
                LockStamps { cargo_lock: FileStamp::Modified(t), ..l },
            )
            &&& t <= now ==> score == (Ratio { num: tenths_for_age(now - t) as u64, den: 10 })
            &&& t > now ==> score == (Ratio { num: 5, den: 10 })
            &&& t <= now && now - t < 731 * 86400 ==> score.num >= freshness_at(
                now as int,
                seq![PackageManager::GoModules],
                LockStamps { go_sum: FileStamp::Absent, ..l },
            ).num
        }),
        freshness_at(
            now as int,
            seq![PackageManager::GoModules],
            LockStamps { go_sum: FileStamp::Absent, ..l },
        ) == (Ratio { num: 4, den: 10 }),
        freshness_at(
            now as int,
            seq![PackageManager::GoModules],
            LockStamps { go_sum: FileStamp::Present, ..l },
        ) == (Ratio { num: 5, den: 10 }),
{
    let with = LockStamps { go_sum: FileStamp::Modified(t), ..l };
    lemma_single_manager(now as int, PackageManager::GoModules, with);
    lemma_single_manager(now as int, PackageManager::Cargo, LockStamps { cargo_lock: FileStamp::Modified(t), ..l });
    lemma_single_manager(now as int, PackageManager::GoModules, LockStamps { go_sum: FileStamp::Absent, ..l });
    lemma_single_manager(now as int, PackageManager::GoModules, LockStamps { go_sum: FileStamp::Present, ..l });
    if t <= now {
        lemma_age_tenths(now as int, t as int);
    }
}

/// A Cargo project is scored by the age of `Cargo.lock`: modified `a`
/// seconds ago it earns the tenths for that age; in the future, or present
/// without a readable time, 0.5. Without `Cargo.lock` the project does not
/// count, and alone it leaves the default of 0.4.
pub proof fn law_cargo_lock_freshness(now: i64, t: i64, l: LockStamps)
    ensures
        ({
            let score = freshness_at(
                now as int,
                seq![PackageManager::Cargo],
                LockStamps { cargo_lock: FileStamp::Modified(t), ..l },
            );
            &&& t <= now ==> score == (Ratio { num: tenths_for_age(now - t) as u64, den: 10 })
            &&& t > now ==> score == (Ratio { num: 5, den: 10 })
        }),
        freshness_at(
            now as int,
            seq![PackageManager::Cargo],
            LockStamps { cargo_lock: FileStamp::Present, ..l },
        ) == (Ratio { num: 5, den: 10 }),
        freshness_at(
            now as int,
            seq![PackageManager::Cargo],
            LockStamps { cargo_lock: FileStamp::Absent, ..l },
        ) == (Ratio { num: 4, den: 10 }),
{
    lemma_single_manager(now as int, PackageManager::Cargo, LockStamps { cargo_lock: FileStamp::Modified(t), ..l });
    lemma_single_manager(now as int, PackageManager::Cargo, LockStamps { cargo_lock: FileStamp::Present, ..l });
    lemma_single_manager(now as int, PackageManager::Cargo, LockStamps { cargo_lock: FileStamp::Absent, ..l });
    if t <= now {
        lemma_age_tenths(now as int, t as int);
    }
}

/// An npm project is scored by the age of its most recently modified lock
/// file (`package-lock.json`, `yarn.lock`, `pnpm-lock.yaml`), and 0.4
/// without one that has a modification time.
pub proof fn law_npm_lock_freshness(now: i64, t: i64, l: LockStamps)
    requires
        t <= now,
    ensures
        freshness_at(
            now as int,
            seq![PackageManager::Npm],
            LockStamps {
                package_lock_json: FileStamp::Modified(t),
                yarn_lock: FileStamp::Absent,
                pnpm_lock_yaml: FileStamp::Absent,
                ..l
            },
        ) == (Ratio { num: tenths_for_age(now - t) as u64, den: 10 }),
        freshness_at(
            now as int,
            seq![PackageManager::Npm],
            LockStamps {
                package_lock_json: FileStamp::Absent,
                yarn_lock: FileStamp::Modified(t),
                pnpm_lock_yaml: FileStamp::Absent,
                ..l
            },
        ) == (Ratio { num: tenths_for_age(now - t) as u64, den: 10 }),
        freshness_at(
            now as int,
            seq![PackageManager::Npm],
            LockStamps {
                package_lock_json: FileStamp::Absent,
                yarn_lock: FileStamp::Absent,
                pnpm_lock_yaml: FileStamp::Modified(t),
                ..l
            },
        ) == (Ratio { num: tenths_for_age(now - t) as u64, den: 10 }),
        freshness_at(
            now as int,
            seq![PackageManager::Npm],
            LockStamps {
                package_lock_json: FileStamp::Absent,
                yarn_lock: FileStamp::Absent,
                pnpm_lock_yaml: FileStamp::Absent,
                ..l
            },
        ) == (Ratio { num: 4, den: 10 }),
{
    let a = LockStamps {
        package_lock_json: FileStamp::Modified(t),
        yarn_lock: FileStamp::Absent,
        pnpm_lock_yaml: FileStamp::Absent,
        ..l
    };
    let b = LockStamps {
        package_lock_json: FileStamp::Absent,
        yarn_lock: FileStamp::Modified(t),
        pnpm_lock_yaml: FileStamp::Absent,
        ..l
    };
    let c = LockStamps {
        package_lock_json: FileStamp::Absent,
        yarn_lock: FileStamp::Absent,
        pnpm_lock_yaml: FileStamp::Modified(t),
        ..l
    };
    let d = LockStamps {
        package_lock_json: FileStamp::Absent,
        yarn_lock: FileStamp::Absent,
        pnpm_lock_yaml: FileStamp::Absent,
        ..l
    };
    lemma_single_manager(now as int, PackageManager::Npm, a);
    lemma_single_manager(now as int, PackageManager::Npm, b);
    lemma_single_manager(now as int, PackageManager::Npm, c);
    lemma_single_manager(now as int, PackageManager::Npm, d);
    lemma_age_tenths(now as int, t as int);
    reveal_with_fuel(most_recent, 4);
}

/// A pip project is scored by the age of its most recently modified lock
/// file (`Pipfile.lock`, `poetry.lock`), else by that of
/// `requirements.txt`, and 0.4 with none of them.
pub proof fn law_pip_lock_freshness(now: i64, t: i64, l: LockStamps)
    requires
        t <= now,
    ensures
        freshness_at(
            now as int,
            seq![PackageManager::Pip],
            LockStamps { pipfile_lock: FileStamp::Modified(t), poetry_lock: FileStamp::Absent, ..l },
        ) == (Ratio { num: tenths_for_age(now - t) as u64, den: 10 }),
        freshness_at(
            now as int,
            seq![PackageManager::Pip],
            LockStamps { pipfile_lock: FileStamp::Absent, poetry_lock: FileStamp::Modified(t), ..l },
        ) == (Ratio { num: tenths_for_age(now - t) as u64, den: 10 }),
        freshness_at(
            now as int,
            seq![PackageManager::Pip],
            LockStamps {
                pipfile_lock: FileStamp::Absent,
                poetry_lock: FileStamp::Absent,
                requirements_txt: FileStamp::Modified(t),
                ..l
            },
        ) == (Ratio { num: tenths_for_age(now - t) as u64, den: 10 }),
        freshness_at(
            now as int,
            seq![PackageManager::Pip],
            LockStamps {
                pipfile_lock: FileStamp::Absent,
                poetry_lock: FileStamp::Absent,
                requirements_txt: FileStamp::Absent,
                ..l
            },
        ) == (Ratio { num: 4, den: 10 }),
{
    let a = LockStamps { pipfile_lock: FileStamp::Modified(t), poetry_lock: FileStamp::Absent, ..l };
    let b = LockStamps { pipfile_lock: FileStamp::Absent, poetry_lock: FileStamp::Modified(t), ..l };
    let c = LockStamps {
        pipfile_lock: FileStamp::Absent,
        poetry_lock: FileStamp::Absent,
        requirements_txt: FileStamp::Modified(t),
        ..l
    };
    let d = LockStamps {
        pipfile_lock: FileStamp::Absent,
        poetry_lock: FileStamp::Absent,
        requirements_txt: FileStamp::Absent,
        ..l
    };
    lemma_single_manager(now as int, PackageManager::Pip, a);
    lemma_single_manager(now as int, PackageManager::Pip, b);
    lemma_single_manager(now as int, PackageManager::Pip, c);
    lemma_single_manager(now as int, PackageManager::Pip, d);
    lemma_age_tenths(now as int, t as int);
    reveal_with_fuel(most_recent, 3);
}

} // verus!
