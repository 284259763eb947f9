//! Activity metrics of a repository: commit counts over recent windows,
//! active contributors, merged pull requests, closed issues and how often
//! releases come out.

use vstd::prelude::*;

verus! {

/// Seconds in a day.
pub const DAY: i64 = 86400;

/// A commit as the activity metrics read it: its hash, and its author's
/// date (seconds since the Unix epoch) and e-mail where given.
pub struct CommitInfo {
    pub sha: String,
    pub date: Option<i64>,
    pub email: Option<String>,
}

/// An issue as the activity metrics read it.
pub struct IssueInfo {
    /// Whether the issue is a pull request.
    pub is_pull_request: bool,
    /// When it was closed, if it was.
    pub closed_at: Option<i64>,
}

/// A release as the activity metrics read it.
pub struct ReleaseInfo {
    pub tag_name: String,
    pub created_at: Option<i64>,
    pub published_at: Option<i64>,
}

/// Activity metrics of a repository.
#[derive(Clone, Debug)]
pub struct ActivityMetrics {
    pub commits_last_month: u32,
    pub commits_last_6_months: u32,
    pub commits_last_year: u32,
    pub last_commit: String,
    /// Seconds since the Unix epoch.
    pub last_commit_date: i64,
    pub contributors_count: u32,
    pub active_contributors_last_3_months: u32,
    pub pull_requests_merged_last_month: u32,
    pub issues_closed_last_month: u32,
    pub release_frequency: String,
    pub latest_release: Option<String>,
}

/// A time lies strictly after the cutoff.
pub open spec fn is_after(t: Option<i64>, cutoff: int) -> bool {
    t matches Some(d) && d > cutoff
}

/// The number of times strictly after the cutoff.
pub open spec fn count_after(ts: Seq<Option<i64>>, cutoff: int) -> nat
    decreases ts.len(),
{
    if ts.len() == 0 {
        0
    } else {
        count_after(ts.drop_last(), cutoff) + if is_after(ts.last(), cutoff) {
            1nat
        } else {
            0
        }
    }
}

/// The author dates of commits.
pub open spec fn commit_dates(cs: Seq<CommitInfo>) -> Seq<Option<i64>> {
    cs.map_values(|c: CommitInfo| c.date)
}

/// A commit's author has the e-mail `e`.
pub open spec fn has_email(c: CommitInfo, e: Seq<char>) -> bool {
    c.email matches Some(m) && m@ == e
}

/// The e-mails of the authors of commits made strictly after the cutoff.
pub open spec fn recent_emails(cs: Seq<CommitInfo>, cutoff: int) -> Set<Seq<char>> {
    Set::new(
        |e: Seq<char>|
            exists|i: int|
                0 <= i < cs.len() && is_after(#[trigger] cs[i].date, cutoff) && has_email(cs[i], e),
    )
}

/// The closing times of issues that are not pull requests.
pub open spec fn issue_close_times(is: Seq<IssueInfo>) -> Seq<Option<i64>> {
    is.map_values(|i: IssueInfo| if i.is_pull_request { None } else { i.closed_at })
}

/// Rust's integer division, rounding toward zero, by a positive divisor.
pub open spec fn div_toward_zero(a: int, b: int) -> int {
    if a >= 0 {
        a / b
    } else {
        -((-a) / b)
    }
}

/// When a release came out: its creation time, else its publication time,
/// else `now`.
pub open spec fn release_time(r: ReleaseInfo, now: int) -> int {
    match r.created_at {
        Some(t) => t as int,
        None => match r.published_at {
            Some(t) => t as int,
            None => now,
        },
    }
}

/// How often releases come out, from the newest first: with two or more,
/// by the mean whole days between them (under 30 monthly, under 90
/// quarterly, under 180 biannual, else annual); one is a single release,
/// none is none.
pub open spec fn release_frequency(rs: Seq<ReleaseInfo>, now: int) -> Seq<char> {
    if rs.len() >= 2 {
        let days = div_toward_zero(release_time(rs[0], now) - release_time(rs.last(), now), 86400);
        let avg = div_toward_zero(days, rs.len() - 1);
        if avg < 30 {
            "monthly"@
        } else if avg < 90 {
            "quarterly"@
        } else if avg < 180 {
            "biannual"@
        } else {
            "annual"@
        }
    } else if rs.len() == 1 {
        "single"@
    } else {
        "none"@
    }
}

/// The number of times strictly after `cutoff`, as `u32` (truncated as
/// `as u32` does).
pub fn count_times_after(ts: &Vec<Option<i64>>, cutoff: i128) -> (n: u32)
    ensures
        n == count_after(ts@, cutoff as int) as u32,
{
    let mut k: usize = 0;
    let mut i: usize = 0;
    while i < ts.len()
        invariant
            i <= ts.len(),
            k == count_after(ts@.take(i as int), cutoff as int),
            k <= i,
        decreases ts.len() - i,
    {
        assert(ts@.take(i + 1).drop_last() =~= ts@.take(i as int));
        match ts[i] {
            Some(d) => {
                if d as i128 > cutoff {
                    k += 1;
                }
            },
            None => {},
        }
        i += 1;
    }
    assert(ts@.take(ts.len() as int) =~= ts@);
    k as u32
}

fn dates_of(cs: &Vec<CommitInfo>) -> (r: Vec<Option<i64>>)
    ensures
        r@ == commit_dates(cs@),
{
    let mut r: Vec<Option<i64>> = Vec::new();
    let mut i: usize = 0;
    while i < cs.len()
        invariant
            i <= cs.len(),
            r@ =~= commit_dates(cs@.take(i as int)),
        decreases cs.len() - i,
    {
        r.push(cs[i].date);
        assert(commit_dates(cs@.take(i + 1)) =~= commit_dates(cs@.take(i as int)).push(cs@[i as int].date));
        i += 1;
    }
    assert(cs@.take(i as int) =~= cs@);
    r
}

fn contains_string(v: &Vec<String>, s: &String) -> (b: bool)
    ensures
        b == v@.map_values(|x: String| x@).contains(s@),
{
    let ghost vs = v@.map_values(|x: String| x@);
    let mut i: usize = 0;
    while i < v.len()
        invariant
            i <= v.len(),
            vs == v@.map_values(|x: String| x@),
            forall|j: int| 0 <= j < i ==> vs[j] != s@,
        decreases v.len() - i,
    {
        if v[i] == *s {
            assert(vs[i as int] == s@);
            return true;
        }
        i += 1;
    }
    false
}

/// The number of distinct e-mails of authors of commits made strictly
/// after `cutoff`.
pub fn count_recent_emails(cs: &Vec<CommitInfo>, cutoff: i128) -> (n: usize)
    ensures
        n == recent_emails(cs@, cutoff as int).len(),
        recent_emails(cs@, cutoff as int).finite(),
{
    let mut seen: Vec<String> = Vec::new();
    let mut i: usize = 0;
    while i < cs.len()
        invariant
            i <= cs.len(),
            seen@.map_values(|x: String| x@).no_duplicates(),
            seen@.map_values(|x: String| x@).to_set() =~= recent_emails(cs@.take(i as int), cutoff as int),
        decreases cs.len() - i,
    {
        let ghost before = seen@.map_values(|x: String| x@);
        assert forall|e: Seq<char>|
            #![auto]
            recent_emails(cs@.take(i + 1), cutoff as int).contains(e) <==> (recent_emails(
                cs@.take(i as int),
                cutoff as int,
            ).contains(e) || (is_after(cs@[i as int].date, cutoff as int)
                && has_email(cs@[i as int], e))) by {
            if recent_emails(cs@.take(i + 1), cutoff as int).contains(e) {
                let j = choose|j: int|
                    0 <= j < cs@.take(i + 1).len() && is_after(
                        #[trigger] cs@.take(i + 1)[j].date,
                        cutoff as int,
                    ) && has_email(cs@.take(i + 1)[j], e);
                if j < i {
                    assert(cs@.take(i as int)[j] == cs@.take(i + 1)[j]);
                }
            }
            if recent_emails(cs@.take(i as int), cutoff as int).contains(e) {
                let j = choose|j: int|
                    0 <= j < cs@.take(i as int).len() && is_after(
                        #[trigger] cs@.take(i as int)[j].date,
                        cutoff as int,
                    ) && has_email(cs@.take(i as int)[j], e);
                assert(cs@.take(i as int)[j] == cs@.take(i + 1)[j]);
            }
            if is_after(cs@[i as int].date, cutoff as int) && has_email(cs@[i as int], e) {
                assert(cs@.take(i + 1)[i as int] == cs@[i as int]);
            }
        }
        let recent = match cs[i].date {
            Some(d) => d as i128 > cutoff,
            None => false,
        };
        if recent {
            match &cs[i].email {
                Some(m) => {
                    if !contains_string(&seen, m) {
                        seen.push(m.clone());
                        assert(seen@.map_values(|x: String| x@) =~= before.push(m@));
                        proof { before.lemma_push_to_set_commute(m@); }
                    } else {
                        assert(before.to_set().contains(m@));
                    }
                    assert(seen@.map_values(|x: String| x@).to_set() =~= before.to_set().insert(m@));
                    assert(has_email(cs@[i as int], m@));
                    assert forall|e: Seq<char>| #![auto] has_email(cs@[i as int], e) implies e == m@ by {}
                },
                None => {
                    assert(seen@.map_values(|x: String| x@) =~= before);
                },
            }
        } else {
            assert(seen@.map_values(|x: String| x@) =~= before);
        }
        proof {
            assert(seen@.map_values(|x: String| x@).to_set() =~= recent_emails(
                cs@.take(i + 1),
                cutoff as int,
            ));
        }
        i += 1;
    }
    assert(cs@.take(cs.len() as int) =~= cs@);
    proof {
        seen@.map_values(|x: String| x@).unique_seq_to_set();
        vstd::seq_lib::seq_to_set_is_finite(seen@.map_values(|x: String| x@));
    }
    seen.len()
}

fn time_of_release(r: &ReleaseInfo, now: i64) -> (t: i64)
    ensures
        t == release_time(*r, now as int),
{
    match r.created_at {
        Some(t) => t,
        None => match r.published_at {
            Some(t) => t,
            None => now,
        },
    }
}

fn div_zero_ward(a: i128, b: i128) -> (q: i128)
    requires
        b > 0,
        -0x1_0000_0000_0000_0000_0000 <= a <= 0x1_0000_0000_0000_0000_0000,
    ensures
        q == div_toward_zero(a as int, b as int),
{
    if a >= 0 {
        a / b
    } else {
        let q = (-a) / b;
        -q
    }
}

/// How often the releases (newest first) come out, seen at `now`.
pub fn frequency_of_releases(rs: &Vec<ReleaseInfo>, now: i64) -> (s: &'static str)
    ensures
        s@ == release_frequency(rs@, now as int),
{
    if rs.len() >= 2 {
        let newest = time_of_release(&rs[0], now);
        let oldest = time_of_release(&rs[rs.len() - 1], now);
        let days = div_zero_ward(newest as i128 - oldest as i128, 86400);
        assert(-0x1_0000_0000_0000_0000_0000 <= days <= 0x1_0000_0000_0000_0000_0000) by {
            assert(newest as i128 - oldest as i128 <= 0x1_0000_0000_0000_0000);
            assert(newest as i128 - oldest as i128 >= -0x1_0000_0000_0000_0000);
        }
        let avg = div_zero_ward(days, rs.len() as i128 - 1);
        if avg < 30 {
            "monthly"
        } else if avg < 90 {
            "quarterly"
        } else if avg < 180 {
            "biannual"
        } else {
            "annual"
        }
    } else if rs.len() == 1 {
        "single"
    } else {
        "none"
    }
}

/// Activity metrics from the commits (newest first) at `now`, and what the
/// GitHub API answered: the contributors on the first page, the merge times
/// of closed pull requests, the closed issues and the releases (newest
/// first); `None` where a request failed. Without commits there are no
/// metrics.
pub fn compute_activity(
    commits: &Vec<CommitInfo>,
    now: i64,
    contributors: Option<u32>,
    merged_pull_requests: Option<Vec<Option<i64>>>,
    closed_issues: Option<Vec<IssueInfo>>,
    releases: Option<Vec<ReleaseInfo>>,
) -> (r: Option<ActivityMetrics>)
    ensures
        commits.len() == 0 <==> r is None,
        r matches Some(m) ==> {
            &&& m.commits_last_month == count_after(commit_dates(commits@), now - 30 * 86400) as u32
            &&& m.commits_last_6_months == count_after(commit_dates(commits@), now - 180 * 86400) as u32
            &&& m.commits_last_year == count_after(commit_dates(commits@), now - 365 * 86400) as u32
            &&& m.active_contributors_last_3_months == recent_emails(commits@, now - 90 * 86400).len() as u32
            &&& m.last_commit@ == commits@[0].sha@
            &&& m.last_commit_date == match commits@[0].date {
                Some(d) => d,
                None => now,
            }
            &&& m.contributors_count == match contributors {
                Some(n) => n,
                None => 1,
            }
            &&& m.pull_requests_merged_last_month == match merged_pull_requests {
                Some(v) => count_after(v@, now - 30 * 86400) as u32,
                None => 0,
            }
            &&& m.issues_closed_last_month == match closed_issues {
                Some(v) => count_after(issue_close_times(v@), now - 30 * 86400) as u32,
                None => 0,
            }
            &&& m.release_frequency@ == match releases {
                Some(v) => release_frequency(v@, now as int),
                None => "unknown"@,
            }
            &&& match releases {
                Some(v) => if v.len() > 0 {
                    m.latest_release matches Some(t) && t@ == v@[0].tag_name@
                } else {
                    m.latest_release is None
                },
                None => m.latest_release is None,
            }
        },
{
    if commits.len() == 0 {
        return None;
    }
    let month: i128 = now as i128 - 30 * 86400;
    let dates = dates_of(commits);
    let commits_last_month = count_times_after(&dates, month);
    let commits_last_6_months = count_times_after(&dates, now as i128 - 180 * 86400);
    let commits_last_year = count_times_after(&dates, now as i128 - 365 * 86400);
    let active = count_recent_emails(commits, now as i128 - 90 * 86400);
    let contributors_count = match contributors {
        Some(n) => n,
        None => 1,
    };
    let pull_requests_merged_last_month = match &merged_pull_requests {
        Some(v) => count_times_after(v, month),
        None => 0,
    };
    let issues_closed_last_month = match &closed_issues {
        Some(v) => {
            let mut times: Vec<Option<i64>> = Vec::new();
            let mut i: usize = 0;
            while i < v.len()
                invariant
                    i <= v.len(),
                    times@ =~= issue_close_times(v@.take(i as int)),
                decreases v.len() - i,
            {
                times.push(if v[i].is_pull_request { None } else { v[i].closed_at });
                assert(issue_close_times(v@.take(i + 1)) =~= issue_close_times(v@.take(i as int)).push(
                    if v@[i as int].is_pull_request { None } else { v@[i as int].closed_at },
                ));
                i += 1;
            }
            assert(v@.take(i as int) =~= v@);
            count_times_after(&times, month)
        },
        None => 0,
    };
    let (release_frequency, latest_release) = match &releases {
        Some(v) => {
            let f = frequency_of_releases(v, now);
            let latest = if v.len() > 0 {
                Some(v[0].tag_name.clone())
            } else {
                None
            };
            (f.to_owned(), latest)
        },
        None => ("unknown".to_owned(), None),
    };
    proof {
        reveal_strlit("unknown");
    }
    Some(
        ActivityMetrics {
            commits_last_month,
            commits_last_6_months,
            commits_last_year,
            last_commit: commits[0].sha.clone(),
            last_commit_date: match commits[0].date {
                Some(d) => d,
                None => now,
            },
            contributors_count,
            active_contributors_last_3_months: active as u32,
            pull_requests_merged_last_month,
            issues_closed_last_month,
            release_frequency,
            latest_release,
        },
    )
}

/// Counting over a longer window never finds fewer: with an earlier
/// cutoff at least as many times lie after it, and never more than there
/// are times (so commits in the last month are at most those of the last
/// six months, and those at most those of the last year).
pub proof fn law_windows_nested(ts: Seq<Option<i64>>, early: int, late: int)
    requires
        early <= late,
    ensures
        count_after(ts, late) <= count_after(ts, early) <= ts.len(),
    decreases ts.len(),
{
    if ts.len() > 0 {
        law_windows_nested(ts.drop_last(), early, late);
    }
}

/// One more time counts exactly when it lies strictly after the cutoff,
/// wherever it stands among the others.
pub proof fn law_count_one_more(ts: Seq<Option<i64>>, t: Option<i64>, cutoff: int)
    ensures
        count_after(seq![t] + ts, cutoff) == count_after(ts, cutoff) + if t matches Some(d) && d
            > cutoff {
            1int
        } else {
            0
        },
        count_after(ts.push(t), cutoff) == count_after(seq![t] + ts, cutoff),
    decreases ts.len(),
{
    if ts.len() > 0 {
        law_count_one_more(ts.drop_last(), t, cutoff);
        assert((seq![t] + ts).drop_last() =~= seq![t] + ts.drop_last());
        assert(ts.push(t).drop_last() =~= ts);
        assert(ts.drop_last().push(t).drop_last() =~= ts.drop_last());
    } else {
        assert((seq![t] + ts).drop_last() =~= ts);
        assert(ts.push(t).drop_last() =~= ts);
    }
}

/// Two releases created `gap` seconds apart, newest first, come out
/// monthly under 30 days apart, quarterly under 90, biannually under 180
/// and annually after that; one release is a single release, and none is
/// none.
pub proof fn law_release_frequency_two(a: ReleaseInfo, b: ReleaseInfo, ta: i64, tb: i64, now: int)
    requires
        a.created_at == Some(ta),
        b.created_at == Some(tb),
        tb <= ta,
    ensures
        ({
            let gap = ta - tb;
            let f = release_frequency(seq![a, b], now);
            &&& gap < 30 * 86400 ==> f == "monthly"@
            &&& 30 * 86400 <= gap < 90 * 86400 ==> f == "quarterly"@
            &&& 90 * 86400 <= gap < 180 * 86400 ==> f == "biannual"@
            &&& gap >= 180 * 86400 ==> f == "annual"@
        }),
        release_frequency(seq![a], now) == "single"@,
        release_frequency(Seq::<ReleaseInfo>::empty(), now) == "none"@,
{
    let s = seq![a, b];
    assert(s.last() == b);
    let days = (ta - tb) / 86400;
    assert(days * 86400 <= ta - tb < (days + 1) * 86400);
}

} // verus!
