//! The repository search: its query, configuration, errors, the search
//! text sent to GitHub, and how the results of a search are reported.

use vstd::prelude::*;
use crate::ratio::Ratio;
use crate::results::RepositoryResult;
use crate::cache::{SearchCache, after_put, entry_views, lemma_views_after_put};

verus! {

/// The decimal digit of a number below ten.
pub open spec fn digit(d: nat) -> char {
    if d == 0 { '0' }
    else if d == 1 { '1' }
    else if d == 2 { '2' }
    else if d == 3 { '3' }
    else if d == 4 { '4' }
    else if d == 5 { '5' }
    else if d == 6 { '6' }
    else if d == 7 { '7' }
    else if d == 8 { '8' }
    else { '9' }
}

/// A number in decimal, without leading zeros.
pub open spec fn decimal(n: nat) -> Seq<char>
    decreases n,
{
    if n < 10 {
        seq![digit(n)]
    } else {
        decimal(n / 10).push(digit(n % 10))
    }
}

fn digit_char(d: u64) -> (c: char)
    requires
        d < 10,
    ensures
        c == digit(d as nat),
{
    if d == 0 { '0' }
    else if d == 1 { '1' }
    else if d == 2 { '2' }
    else if d == 3 { '3' }
    else if d == 4 { '4' }
    else if d == 5 { '5' }
    else if d == 6 { '6' }
    else if d == 7 { '7' }
    else if d == 8 { '8' }
    else { '9' }
}

/// Appends the decimal digits of `n`.
pub fn push_decimal(out: &mut Vec<char>, n: u64)
    ensures
        final(out)@ == old(out)@ + decimal(n as nat),
    decreases n,
{
    if n >= 10 {
        push_decimal(out, n / 10);
    }
    out.push(digit_char(n % 10));
    proof {
        if n >= 10 {
            assert(decimal(n as nat) == decimal((n / 10) as nat).push(digit((n % 10) as nat)));
        }
    }
}

/// Appends the characters of a text.
pub fn push_text(out: &mut Vec<char>, s: &str)
    ensures
        final(out)@ == old(out)@ + s@,
{
    let ghost start = out@;
    for c in it: s.chars()
        invariant
            out@ == start + it.seq().take(it.index() as int),
            it.seq() == s@,
    {
        assert(it.seq().take(it.index() + 1) =~= it.seq().take(it.index() as int).push(c));
        out.push(c);
    }
    assert(s@.take(s@.len() as int) =~= s@);
}

/// The decimal text of a number.
pub fn decimal_text(n: u64) -> (s: String)
    ensures
        s@ == decimal(n as nat),
{
    let mut v: Vec<char> = Vec::new();
    push_decimal(&mut v, n);
    assert(v@ =~= decimal(n as nat));
    crate::text::string_of(&v)
}

/// Words joined with single spaces (`[String]::join(" ")`).
pub open spec fn join_words(ws: Seq<Seq<char>>) -> Seq<char>
    decreases ws.len(),
{
    if ws.len() == 0 {
        seq![]
    } else if ws.len() == 1 {
        ws[0]
    } else {
        join_words(ws.drop_last()) + seq![' '] + ws.last()
    }
}

/// The texts of strings.
pub open spec fn texts(v: Seq<String>) -> Seq<Seq<char>> {
    v.map_values(|s: String| s@)
}

/// Appends the words, joined with single spaces.
fn push_joined(out: &mut Vec<char>, ws: &Vec<String>)
    ensures
        final(out)@ == old(out)@ + join_words(texts(ws@)),
{
    let ghost start = out@;
    let mut i: usize = 0;
    while i < ws.len()
        invariant
            i <= ws.len(),
            out@ == start + join_words(texts(ws@).take(i as int)),
        decreases ws.len() - i,
    {
        let ghost before = out@;
        if i > 0 {
            out.push(' ');
        }
        push_text(out, ws[i].as_str());
        proof {
            let t = texts(ws@);
            assert(t.take(i + 1).drop_last() =~= t.take(i as int));
            assert(t.take(i + 1).last() == ws@[i as int]@);
            if i == 0 {
                assert(t.take(1) =~= seq![ws@[0]@]);
                assert(join_words(t.take(0)) =~= Seq::<char>::empty());
                assert(out@ =~= start + join_words(t.take(1)));
            } else {
                assert(out@ =~= start + (join_words(t.take(i as int)) + seq![' '] + ws@[i as int]@));
            }
        }
        i += 1;
    }
    assert(texts(ws@).take(ws.len() as int) =~= texts(ws@));
}

/// The words of a query, joined with single spaces.
pub fn join_terms(ws: &Vec<String>) -> (s: String)
    ensures
        s@ == join_words(texts(ws@)),
{
    let mut v: Vec<char> = Vec::new();
    push_joined(&mut v, ws);
    assert(v@ =~= join_words(texts(ws@)));
    crate::text::string_of(&v)
}

/// The parameters of a repository search. Times are in seconds since the
/// Unix epoch.
#[derive(Clone, Debug, Default)]
pub struct SearchQuery {
    pub terms: Vec<String>,
    pub language: Option<String>,
    pub min_stars: u32,
    pub license: Option<String>,
    pub created_after: Option<i64>,
    pub pushed_after: Option<i64>,
    pub topic: Option<String>,
    pub user: Option<String>,
    pub org: Option<String>,
    pub exclude_forks: bool,
    pub exclude_archived: bool,
}

/// The configuration of a search. Durations are in whole seconds.
#[derive(Clone, Debug)]
pub struct SearchConfig {
    pub cache_capacity: usize,
    pub concurrency_limit: usize,
    pub max_file_size: usize,
    pub max_repo_size: u64,
    pub fetch_timeout: u64,
    pub api_timeout: u64,
    pub rate_limit_buffer: u32,
    pub cache_ttl: u64,
    pub api_page_size: u8,
}

impl Default for SearchConfig {
    /// A cache of 1000 results kept an hour, ten analyses at a time, files
    /// up to 10 MiB, repositories up to 1 GiB, 30 s to clone, 10 s per API
    /// call, a rate limit buffer of 100 and pages of 100.
    fn default() -> (c: SearchConfig)
        ensures
            c.cache_capacity == 1000,
            c.concurrency_limit == 10,
            c.max_file_size == 10_485_760,
            c.max_repo_size == 1_073_741_824,
            c.fetch_timeout == 30,
            c.api_timeout == 10,
            c.rate_limit_buffer == 100,
            c.cache_ttl == 3600,
            c.api_page_size == 100,
    {
        SearchConfig {
            cache_capacity: 1000,
            concurrency_limit: 10,
            max_file_size: 10_485_760,
            max_repo_size: 1_073_741_824,
            fetch_timeout: 30,
            api_timeout: 10,
            rate_limit_buffer: 100,
            cache_ttl: 3600,
            api_page_size: 100,
        }
    }
}

/// Why a search failed. Times are in seconds since the Unix epoch,
/// durations in whole seconds.
#[derive(Clone, Debug)]
pub enum SearchError {
    ApiError(String),
    LocalAnalysisError(String),
    RateLimitExceeded { remaining: u32, reset_time: i64 },
    InvalidQuery { details: String },
    ResourceLimitExceeded { resource: String, limit: String },
    NoResults { query: String },
    TimeoutError { operation: String, duration: u64 },
    AuthenticationError,
    AccessDenied { repo: String },
    ConfigError(String),
}

/// Named result of `chrono::DateTime::format("%Y-%m-%d")` on the UTC time
/// `secs` seconds after the Unix epoch: its calendar date.
pub uninterp spec fn ymd(secs: i64) -> Seq<char>;

/// Named result of `chrono::DateTime::from_timestamp(secs, 0)`: whether
/// `secs` seconds after the Unix epoch is a time chrono represents.
pub uninterp spec fn representable(secs: i64) -> bool;

/// Formats the UTC date of a time as `%Y-%m-%d` with chrono. The contract
/// names the result, and says that a time chrono cannot represent gives
/// none.
#[verifier::external_body]
fn format_ymd(secs: i64) -> (r: Option<String>)
    ensures
        r is Some <==> representable(secs),
        r matches Some(s) ==> s@ == ymd(secs),
{
    chrono::DateTime::from_timestamp(secs, 0).map(|t| t.format("%Y-%m-%d").to_string())
}

/// Whether chrono represents the time `secs` seconds after the Unix epoch
/// (`chrono::DateTime::from_timestamp(secs, 0)` gives one).
#[verifier::external_body]
pub(crate) fn timestamp_representable(secs: i64) -> (b: bool)
    ensures
        b == representable(secs),
{
    chrono::DateTime::from_timestamp(secs, 0).is_some()
}

/// ` key` followed by the value, when there is one.
pub open spec fn filter_text(key: Seq<char>, v: Option<Seq<char>>) -> Seq<char> {
    match v {
        Some(t) => key + t,
        None => seq![],
    }
}

/// The text of an optional string.
pub open spec fn opt_text(s: Option<String>) -> Option<Seq<char>> {
    match s {
        Some(t) => Some(t@),
        None => None,
    }
}

/// The search text sent to GitHub: the terms joined with spaces, then the
/// filters that are set, in this order: language, license, minimum stars
/// (when positive), creation and push dates (`YYYY-MM-DD`, as given),
/// topic, user, organisation, and the exclusion of forks and archived
/// repositories.
pub open spec fn search_text(q: SearchQuery, created: Option<Seq<char>>, pushed: Option<Seq<char>>) -> Seq<char> {
    join_words(texts(q.terms@)) + filter_text(" language:"@, opt_text(q.language)) + filter_text(
        " license:"@,
        opt_text(q.license),
    ) + (if q.min_stars > 0 {
        " stars:>="@ + decimal(q.min_stars as nat)
    } else {
        seq![]
    }) + filter_text(" created:>"@, created) + filter_text(" pushed:>"@, pushed) + filter_text(
        " topic:"@,
        opt_text(q.topic),
    ) + filter_text(" user:"@, opt_text(q.user)) + filter_text(" org:"@, opt_text(q.org)) + (
    if q.exclude_forks {
        " fork:false"@
    } else {
        seq![]
    }) + (if q.exclude_archived {
        " archived:false"@
    } else {
        seq![]
    })
}

fn push_filter(out: &mut Vec<char>, key: &str, v: Option<&str>)
    ensures
        final(out)@ == old(out)@ + filter_text(
            key@,
            match v {
                Some(t) => Some(t@),
                None => None,
            },
        ),
{
    match v {
        Some(t) => {
            let ghost before = out@;
            push_text(out, key);
            push_text(out, t);
            assert(out@ =~= before + (key@ + t@));
        },
        None => {
            assert(out@ =~= old(out)@ + Seq::<char>::empty());
        },
    }
}

fn as_opt_str(s: &Option<String>) -> (r: Option<&str>)
    ensures
        match r {
            Some(t) => opt_text(*s) == Some(t@),
            None => opt_text(*s) is None,
        },
{
    match s {
        Some(t) => Some(t.as_str()),
        None => None,
    }
}

/// The search text for a query, with its creation and push dates already
/// formatted as `YYYY-MM-DD` (`None` leaves a filter out).
pub fn compose_search_terms(q: &SearchQuery, created: Option<&str>, pushed: Option<&str>) -> (s: String)
    ensures
        s@ == search_text(
            *q,
            match created {
                Some(t) => Some(t@),
                None => None,
            },
            match pushed {
                Some(t) => Some(t@),
                None => None,
            },
        ),
{
    proof {
        reveal_strlit(" language:");
        reveal_strlit(" license:");
        reveal_strlit(" stars:>=");
        reveal_strlit(" created:>");
        reveal_strlit(" pushed:>");
        reveal_strlit(" topic:");
        reveal_strlit(" user:");
        reveal_strlit(" org:");
        reveal_strlit(" fork:false");
        reveal_strlit(" archived:false");
    }
    let mut v: Vec<char> = Vec::new();
    push_joined(&mut v, &q.terms);
    let ghost a = v@;
    push_filter(&mut v, " language:", as_opt_str(&q.language));
    push_filter(&mut v, " license:", as_opt_str(&q.license));
    let ghost b = v@;
    if q.min_stars > 0 {
        push_text(&mut v, " stars:>=");
        push_decimal(&mut v, q.min_stars as u64);
    }
    assert(v@ =~= b + (if q.min_stars > 0 {
        " stars:>="@ + decimal(q.min_stars as nat)
    } else {
        seq![]
    }));
    push_filter(&mut v, " created:>", created);
    push_filter(&mut v, " pushed:>", pushed);
    push_filter(&mut v, " topic:", as_opt_str(&q.topic));
    push_filter(&mut v, " user:", as_opt_str(&q.user));
    push_filter(&mut v, " org:", as_opt_str(&q.org));
    let ghost c = v@;
    if q.exclude_forks {
        push_text(&mut v, " fork:false");
    }
    assert(v@ =~= c + (if q.exclude_forks {
        " fork:false"@
    } else {
        seq![]
    }));
    let ghost d = v@;
    if q.exclude_archived {
        push_text(&mut v, " archived:false");
    }
    assert(v@ =~= d + (if q.exclude_archived {
        " archived:false"@
    } else {
        seq![]
    }));
    let ghost cr = match created {
        Some(t) => Some(t@),
        None => None,
    };
    let ghost pu = match pushed {
        Some(t) => Some(t@),
        None => None,
    };
    assert(v@ =~= search_text(*q, cr, pu));
    crate::text::string_of(&v)
}

/// The formatted date of an optional time, left out where chrono cannot
/// represent the time.
pub open spec fn date_filter(t: Option<i64>) -> Option<Seq<char>> {
    match t {
        Some(s) => if representable(s) {
            Some(ymd(s))
        } else {
            None
        },
        None => None,
    }
}

/// The search text sent to GitHub for a query, its dates formatted with
/// chrono.
pub fn search_terms(q: &SearchQuery) -> (s: String)
    ensures
        s@ == search_text(*q, date_filter(q.created_after), date_filter(q.pushed_after)),
{
    let created = match q.created_after {
        Some(t) => format_ymd(t),
        None => None,
    };
    let pushed = match q.pushed_after {
        Some(t) => format_ymd(t),
        None => None,
    };
    let c = match &created {
        Some(s) => Some(s.as_str()),
        None => None,
    };
    let p = match &pushed {
        Some(s) => Some(s.as_str()),
        None => None,
    };
    compose_search_terms(q, c, p)
}

/// The error for a search that found nothing: it names the terms, joined
/// with spaces.
pub fn no_results_error(q: &SearchQuery) -> (e: SearchError)
    ensures
        e matches SearchError::NoResults { query } && query@ == join_words(texts(q.terms@)),
{
    SearchError::NoResults { query: join_terms(&q.terms) }
}

/// At most the first `n` items, in order.
pub fn take_first<T>(items: Vec<T>, n: usize) -> (r: Vec<T>)
    ensures
        r@ == items@.take(if items@.len() < n { items@.len() as int } else { n as int }),
{
    let mut items = items;
    if items.len() > n {
        items.truncate(n);
    }
    items
}

/// The repositories a search analyses: the first ten it found.
pub fn top_repositories<T>(repos: Vec<T>) -> (r: Vec<T>)
    ensures
        r@ == repos@.take(if repos@.len() < 10 { repos@.len() as int } else { 10 }),
{
    take_first(repos, 10)
}

/// Statistics of a search.
#[derive(Clone, Debug)]
pub struct MetadataInfo {
    pub total_results: u32,
    pub cache_hit_rate: Ratio,
    pub cache_hits: u64,
    pub cache_misses: u64,
    pub processing_time_ms: u128,
    pub api_rate_limit_remaining: u32,
    pub partial_results: bool,
}

/// The outcome of a search.
#[derive(Clone, Debug)]
pub struct Output {
    pub status: String,
    pub results: Vec<RepositoryResult>,
    pub metadata: MetadataInfo,
    pub errors: Vec<String>,
}

/// The outcome of a search: `success` without errors, else `partial`; the
/// cache hit rate is the share of hits among all lookups (zero without
/// lookups).
pub fn search_output(
    results: Vec<RepositoryResult>,
    errors: Vec<String>,
    total_results: u32,
    cache_hits: u64,
    cache_misses: u64,
    processing_time_ms: u128,
    api_rate_limit_remaining: u32,
) -> (o: Output)
    requires
        cache_hits + cache_misses <= u64::MAX,
    ensures
        o.status@ == if errors@.len() == 0 {
            "success"@
        } else {
            "partial"@
        },
        o.results@ == results@,
        o.errors@ == errors@,
        o.metadata.total_results == total_results,
        o.metadata.cache_hit_rate == Ratio::spec_quotient(cache_hits, (cache_hits + cache_misses) as u64),
        o.metadata.cache_hits == cache_hits,
        o.metadata.cache_misses == cache_misses,
        o.metadata.processing_time_ms == processing_time_ms,
        o.metadata.api_rate_limit_remaining == api_rate_limit_remaining,
        o.metadata.partial_results == (errors@.len() > 0),
{
    proof {
        reveal_strlit("success");
        reveal_strlit("partial");
    }
    let partial = errors.len() > 0;
    Output {
        status: if partial {
            "partial".to_owned()
        } else {
            "success".to_owned()
        },
        results,
        metadata: MetadataInfo {
            total_results,
            cache_hit_rate: Ratio::quotient(cache_hits, cache_hits + cache_misses),
            cache_hits,
            cache_misses,
            processing_time_ms,
            api_rate_limit_remaining,
            partial_results: partial,
        },
        errors,
    }
}

/// The commit a result is cached at: the last commit of its activity, or
/// empty without activity.
pub open spec fn cached_commit(r: RepositoryResult) -> Seq<char> {
    match r.activity_metrics {
        Some(a) => a.last_commit@,
        None => seq![],
    }
}

/// The entries, as values, after storing each result in turn under its
/// full name, at its last commit, at time `now`.
pub open spec fn stored_entries(
    s: Seq<(Seq<char>, (RepositoryResult, Seq<char>, i64))>,
    cap: nat,
    rs: Seq<RepositoryResult>,
    now: i64,
) -> Seq<(Seq<char>, (RepositoryResult, Seq<char>, i64))>
    decreases rs.len(),
{
    if rs.len() == 0 {
        s
    } else {
        after_put(
            stored_entries(s, cap, rs.drop_last(), now),
            cap,
            rs.last().full_name@,
            (rs.last(), cached_commit(rs.last()), now),
        )
    }
}

/// Stores each result in the cache under its full name, at its last commit
/// (empty without activity), at time `now`, in order: each goes to the
/// front, replacing an entry of the same name or, when the cache is full,
/// the least recently used one.
pub fn cache_results(cache: &mut SearchCache, results: Vec<RepositoryResult>, now: i64)
    ensures
        final(cache).wf(),
        entry_views(final(cache).entries()) == stored_entries(
            entry_views(old(cache).entries()),
            old(cache).capacity(),
            results@,
            now,
        ),
        final(cache).ttl() == old(cache).ttl(),
        final(cache).capacity() == old(cache).capacity(),
        final(cache).hits() == old(cache).hits(),
        final(cache).misses() == old(cache).misses(),
{
    proof {
        use_type_invariant(&*cache);
    }
    let ghost s0 = entry_views(cache.entries());
    let ghost cap = cache.capacity();
    let ghost rs = results@;
    let n: usize = results.len();
    let mut rest = results;
    let mut i: usize = 0;
    while i < n
        invariant
            i <= n,
            n == rs.len(),
            rest@ == rs.skip(i as int),
            cache.wf(),
            cap == old(cache).capacity(),
            s0 == entry_views(old(cache).entries()),
            entry_views(cache.entries()) == stored_entries(s0, cap, rs.take(i as int), now),
            cache.ttl() == old(cache).ttl(),
            cache.capacity() == old(cache).capacity(),
            cache.hits() == old(cache).hits(),
            cache.misses() == old(cache).misses(),
        decreases n - i,
    {
        let r = rest.remove(0);
        assert(r == rs[i as int]);
        let sha = match &r.activity_metrics {
            Some(a) => a.last_commit.clone(),
            None => String::new(),
        };
        assert(sha@ == cached_commit(rs[i as int]));
        let key = r.full_name.clone();
        let ghost before = cache.entries();
        let ghost entry = crate::cache::RepoCacheEntry { result: r, commit_hash: sha, cached_at: now };
        cache.put(key, r, sha, now);
        proof {
            lemma_views_after_put(before, cap, rs[i as int].full_name@, entry);
            assert(rs.take(i + 1).drop_last() =~= rs.take(i as int));
            assert(rs.take(i + 1).last() == rs[i as int]);
            assert(rest@ =~= rs.skip(i + 1));
        }
        i += 1;
    }
    assert(rs.take(n as int) =~= rs);
}

} // verus!
