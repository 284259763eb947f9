//! A least-recently-used cache of analysis results, whose entries expire
//! after a time to live and are only served for the commit they were
//! computed at.

use vstd::prelude::*;
use lru::LruCache;
use crate::results::RepositoryResult;

verus! {

/// The `lru` crate's cache type.
#[verifier::external_type_specification]
#[verifier::external_body]
#[verifier::reject_recursive_types(K)]
#[verifier::reject_recursive_types(V)]
#[verifier::reject_recursive_types(S)]
pub struct ExLruCache<K, V, S>(LruCache<K, V, S>);

/// The hasher an `lru::LruCache` uses by default.
#[verifier::external_type_specification]
#[verifier::external_body]
pub struct ExDefaultHasher(lru::DefaultHasher);

/// A cached analysis result, with the commit it was computed at and when it
/// was stored (seconds since the Unix epoch).
#[derive(Clone, Debug)]
pub struct RepoCacheEntry {
    pub result: RepositoryResult,
    pub commit_hash: String,
    pub cached_at: i64,
}

/// What an `lru::LruCache` holds: its keys and values, most recently used
/// first.
pub uninterp spec fn lru_entries(c: LruCache<String, RepoCacheEntry>) -> Seq<(Seq<char>, RepoCacheEntry)>;

/// The capacity an `lru::LruCache` was made with.
pub uninterp spec fn lru_capacity(c: LruCache<String, RepoCacheEntry>) -> nat;

/// The value under key `k`, if any (the first found, most recent first).
pub open spec fn lookup<E>(s: Seq<(Seq<char>, E)>, k: Seq<char>) -> Option<E>
    decreases s.len(),
{
    if s.len() == 0 {
        None
    } else if s[0].0 == k {
        Some(s[0].1)
    } else {
        lookup(s.drop_first(), k)
    }
}

/// The entries without those under key `k`, in order.
pub open spec fn without_key<E>(s: Seq<(Seq<char>, E)>, k: Seq<char>) -> Seq<(Seq<char>, E)>
    decreases s.len(),
{
    if s.len() == 0 {
        s
    } else if s[0].0 == k {
        without_key(s.drop_first(), k)
    } else {
        seq![s[0]] + without_key(s.drop_first(), k)
    }
}

/// No key occurs twice.
pub open spec fn distinct_keys<E>(s: Seq<(Seq<char>, E)>) -> bool {
    forall|i: int, j: int| 0 <= i < j < s.len() ==> #[trigger] s[i].0 != #[trigger] s[j].0
}

/// The entries after a lookup of `k`: a found entry moves to the front.
pub open spec fn after_get<E>(s: Seq<(Seq<char>, E)>, k: Seq<char>) -> Seq<(Seq<char>, E)> {
    match lookup(s, k) {
        Some(v) => seq![(k, v)] + without_key(s, k),
        None => s,
    }
}

/// The entries after storing `v` under `k`: it goes to the front, replacing
/// an entry under `k`, or else, when the cache is full, the least recently
/// used entry.
pub open spec fn after_put<E>(s: Seq<(Seq<char>, E)>, cap: nat, k: Seq<char>, v: E) -> Seq<(Seq<char>, E)> {
    if lookup(s, k) is Some {
        seq![(k, v)] + without_key(s, k)
    } else if s.len() >= cap {
        seq![(k, v)] + s.drop_last()
    } else {
        seq![(k, v)] + s
    }
}

/// Creates an `lru::LruCache` with the given positive capacity
/// (`LruCache::new`). It is empty.
#[verifier::external_body]
fn lru_new(cap: usize) -> (c: LruCache<String, RepoCacheEntry>)
    requires
        cap >= 1,
    ensures
        lru_entries(c) == Seq::<(Seq<char>, RepoCacheEntry)>::empty(),
        lru_capacity(c) == cap,
{
    match std::num::NonZeroUsize::new(cap) {
        Some(n) => LruCache::new(n),
        None => LruCache::new(std::num::NonZeroUsize::MIN),
    }
}

/// Looks `key` up with `LruCache::get`, which moves a found entry to the
/// front, and returns a clone of its value (a derived `Clone`, which
/// copies every field).
#[verifier::external_body]
fn lru_get(c: &mut LruCache<String, RepoCacheEntry>, key: &str) -> (r: Option<RepoCacheEntry>)
    ensures
        r == lookup(lru_entries(*old(c)), key@),
        lru_entries(*final(c)) == after_get(lru_entries(*old(c)), key@),
        lru_capacity(*final(c)) == lru_capacity(*old(c)),
{
    c.get(key).cloned()
}

/// Stores a value with `LruCache::put`.
#[verifier::external_body]
fn lru_put(c: &mut LruCache<String, RepoCacheEntry>, key: String, v: RepoCacheEntry)
    ensures
        lru_entries(*final(c)) == after_put(lru_entries(*old(c)), lru_capacity(*old(c)), key@, v),
        lru_capacity(*final(c)) == lru_capacity(*old(c)),
{
    c.put(key, v);
}

/// Removes the entry under `key` with `LruCache::pop`.
#[verifier::external_body]
fn lru_pop(c: &mut LruCache<String, RepoCacheEntry>, key: &str)
    ensures
        lru_entries(*final(c)) == without_key(lru_entries(*old(c)), key@),
        lru_capacity(*final(c)) == lru_capacity(*old(c)),
{
    c.pop(key);
}

/// Lists the entries with `LruCache::iter` (most recently used first), each
/// as its key and the time it was stored.
#[verifier::external_body]
fn lru_stamps(c: &LruCache<String, RepoCacheEntry>) -> (r: Vec<(String, i64)>)
    ensures
        r@.len() == lru_entries(*c).len(),
        forall|i: int|
            0 <= i < r@.len() ==> (#[trigger] r@[i]).0@ == lru_entries(*c)[i].0 && r@[i].1
                == lru_entries(*c)[i].1.cached_at,
{
    c.iter().map(|(k, e)| (k.clone(), e.cached_at)).collect()
}

/// The largest time to live, in seconds, that `chrono::TimeDelta` holds
/// (`i64::MAX` milliseconds).
pub const MAX_TTL_SECONDS: u64 = 9_223_372_036_854_775;

/// The time to live in effect: a longer one than a `TimeDelta` holds
/// counts as zero.
pub open spec fn effective_ttl(ttl: u64) -> int {
    if ttl <= MAX_TTL_SECONDS {
        ttl as int
    } else {
        0
    }
}

/// An entry stored at `cached_at` has expired at `now` when more than the
/// time to live has passed.
pub open spec fn expired(cached_at: i64, now: int, ttl: u64) -> bool {
    now - cached_at > effective_ttl(ttl)
}

/// The entries that have not expired at `now`, in order.
pub open spec fn fresh_only(s: Seq<(Seq<char>, RepoCacheEntry)>, now: int, ttl: u64) -> Seq<
    (Seq<char>, RepoCacheEntry),
>
    decreases s.len(),
{
    if s.len() == 0 {
        s
    } else if expired(s[0].1.cached_at, now, ttl) {
        fresh_only(s.drop_first(), now, ttl)
    } else {
        seq![s[0]] + fresh_only(s.drop_first(), now, ttl)
    }
}

/// A counter advanced by one, wrapping at `u64::MAX`.
pub open spec fn next_count(n: u64) -> u64 {
    if n == u64::MAX {
        0
    } else {
        (n + 1) as u64
    }
}

/// A result is served from the cache when an entry is under the key, has
/// not expired and was computed at the current commit.
pub open spec fn served(e: Option<RepoCacheEntry>, sha: Seq<char>, now: int, ttl: u64) -> bool {
    e matches Some(x) && !expired(x.cached_at, now, ttl) && x.commit_hash@ == sha
}

/// An LRU cache of analysis results with a time to live, counting the
/// lookups that were served (hits) and those that were not (misses).
pub struct SearchCache {
    lru: LruCache<String, RepoCacheEntry>,
    ttl: u64,
    hits: u64,
    misses: u64,
}

impl SearchCache {
    /// The entries, most recently used first.
    pub closed spec fn entries(&self) -> Seq<(Seq<char>, RepoCacheEntry)> {
        lru_entries(self.lru)
    }

    /// The most entries the cache holds.
    pub closed spec fn capacity(&self) -> nat {
        lru_capacity(self.lru)
    }

    /// The time to live of an entry, in seconds.
    pub closed spec fn ttl(&self) -> u64 {
        self.ttl
    }

    /// Lookups that were served.
    pub closed spec fn hits(&self) -> u64 {
        self.hits
    }

    /// Lookups that were not served.
    pub closed spec fn misses(&self) -> u64 {
        self.misses
    }

    /// Keys are distinct and the entries fit the capacity, which is
    /// positive. Every cache keeps this.
    #[verifier::type_invariant]
    pub open spec fn wf(&self) -> bool {
        &&& distinct_keys(self.entries())
        &&& self.entries().len() <= self.capacity()
        &&& self.capacity() >= 1
    }

    /// An empty cache holding at most `capacity` entries (at least one) for
    /// `ttl` seconds each.
    pub fn new(capacity: usize, ttl: u64) -> (c: SearchCache)
        ensures
            c.wf(),
            c.entries() == Seq::<(Seq<char>, RepoCacheEntry)>::empty(),
            c.capacity() == if capacity >= 1 {
                capacity as nat
            } else {
                1
            },
            c.ttl() == ttl,
            c.hits() == 0,
            c.misses() == 0,
    {
        let cap = if capacity >= 1 {
            capacity
        } else {
            1
        };
        SearchCache { lru: lru_new(cap), ttl, hits: 0, misses: 0 }
    }

    /// What a lookup of `key` at the commit `sha` at time `now` does: the
    /// entry under the key moves to the front; it is returned, counted as
    /// a hit, when it has not expired and was computed at that commit, and
    /// otherwise the lookup counts as a miss.
    pub open spec fn lookup_post(
        old: SearchCache,
        new: SearchCache,
        key: Seq<char>,
        sha: Seq<char>,
        now: int,
        r: Option<RepositoryResult>,
    ) -> bool {
        let e = lookup(old.entries(), key);
        &&& new.wf()
        &&& new.entries() == after_get(old.entries(), key)
        &&& new.capacity() == old.capacity()
        &&& new.ttl() == old.ttl()
        &&& if served(e, sha, now, old.ttl()) {
            &&& r == Some(e->0.result)
            &&& new.hits() == next_count(old.hits())
            &&& new.misses() == old.misses()
        } else {
            &&& r is None
            &&& new.hits() == old.hits()
            &&& new.misses() == next_count(old.misses())
        }
    }

    /// Looks up the result for `key` computed at commit `current_sha`, at
    /// time `now` (seconds since the Unix epoch).
    pub fn get_if_valid(&mut self, key: &str, current_sha: &str, now: i64) -> (r: Option<RepositoryResult>)
        ensures
            SearchCache::lookup_post(*old(self), *final(self), key@, current_sha@, now as int, r),
    {
        proof {
            use_type_invariant(&*self);
        }
        let ghost s = self.entries();
        proof {
            lemma_after_get(s, key@);
        }
        // Work on the entries out of place, so that the cache keeps its
        // invariant even if the call unwinds.
        let mut lru = lru_new(1);
        std::mem::swap(&mut lru, &mut self.lru);
        let found = lru_get(&mut lru, key);
        self.lru = lru;
        match found {
            Some(entry) => {
                let sha = current_sha.to_owned();
                if !is_expired(entry.cached_at, now, self.ttl) && entry.commit_hash == sha {
                    self.hits = self.hits.wrapping_add(1);
                    return Some(entry.result);
                }
            },
            None => {},
        }
        self.misses = self.misses.wrapping_add(1);
        None
    }

    /// What storing `result` under `key`, computed at `commit_hash`, at
    /// time `now` does: the entry goes to the front, stamped `now`.
    pub open spec fn store_post(
        old: SearchCache,
        new: SearchCache,
        key: Seq<char>,
        entry: RepoCacheEntry,
    ) -> bool {
        &&& new.wf()
        &&& new.entries() == after_put(old.entries(), old.capacity(), key, entry)
        &&& new.capacity() == old.capacity()
        &&& new.ttl() == old.ttl()
        &&& new.hits() == old.hits()
        &&& new.misses() == old.misses()
    }

    /// Stores `result` under `key`, computed at `commit_hash`, at time
    /// `now`.
    pub fn put(&mut self, key: String, result: RepositoryResult, commit_hash: String, now: i64)
        ensures
            SearchCache::store_post(
                *old(self),
                *final(self),
                key@,
                RepoCacheEntry { result, commit_hash, cached_at: now },
            ),
    {
        proof {
            use_type_invariant(&*self);
        }
        let ghost s = self.entries();
        let ghost k = key@;
        let entry = RepoCacheEntry { result, commit_hash, cached_at: now };
        proof {
            lemma_after_put(s, self.capacity(), k, entry);
        }
        // Work on the entries out of place, so that the cache keeps its
        // invariant even if the call unwinds.
        let mut lru = lru_new(1);
        std::mem::swap(&mut lru, &mut self.lru);
        lru_put(&mut lru, key, entry);
        self.lru = lru;
    }

    /// The numbers of hits and misses.
    pub fn cache_stats(&self) -> (r: (u64, u64))
        ensures
            r == (self.hits(), self.misses()),
    {
        (self.hits, self.misses)
    }

    /// What removing the expired entries at `now` does: only the entries
    /// that have not expired stay, in their order.
    pub open spec fn cleanup_post(old: SearchCache, new: SearchCache, now: int) -> bool {
        &&& new.wf()
        &&& new.entries() == fresh_only(old.entries(), now, old.ttl())
        &&& new.capacity() == old.capacity()
        &&& new.ttl() == old.ttl()
        &&& new.hits() == old.hits()
        &&& new.misses() == old.misses()
    }

    /// Removes the entries that have expired at time `now`.
    pub fn cleanup_expired(&mut self, now: i64)
        ensures
            SearchCache::cleanup_post(*old(self), *final(self), now as int),
    {
        proof {
            use_type_invariant(&*self);
        }
        let ghost s0 = self.entries();
        let stamps = lru_stamps(&self.lru);
        let mut expired_keys: Vec<String> = Vec::new();
        let mut i: usize = 0;
        while i < stamps.len()
            invariant
                i <= stamps.len(),
                stamps@.len() == s0.len(),
                forall|j: int|
                    0 <= j < stamps@.len() ==> (#[trigger] stamps@[j]).0@ == s0[j].0 && stamps@[j].1
                        == s0[j].1.cached_at,
                keys_of(expired_keys@) == expired_keys_of(s0.take(i as int), now as int, self.ttl),
                self.ttl == old(self).ttl,
            decreases stamps.len() - i,
        {
            proof {
                lemma_expired_keys_push(s0, i as int, now as int, self.ttl);
            }
            if is_expired(stamps[i].1, now, self.ttl) {
                let ghost before = expired_keys@;
                expired_keys.push(stamps[i].0.clone());
                assert(keys_of(expired_keys@) =~= keys_of(before).push(s0[i as int].0));
            }
            i += 1;
        }
        assert(s0.take(i as int) =~= s0);
        proof {
            lemma_without_expired(s0, now as int, self.ttl);
        }
        let ghost ks = keys_of(expired_keys@);
        // Work on the entries out of place, so that the cache keeps its
        // invariant even if the call unwinds.
        let mut lru = lru_new(1);
        std::mem::swap(&mut lru, &mut self.lru);
        let mut j: usize = 0;
        while j < expired_keys.len()
            invariant
                j <= expired_keys.len(),
                ks == keys_of(expired_keys@),
                lru_entries(lru) == without_keys(s0, ks.take(j as int)),
                lru_capacity(lru) == lru_capacity(old(self).lru),
            decreases expired_keys.len() - j,
        {
            assert(ks.take(j + 1).drop_last() =~= ks.take(j as int));
            lru_pop(&mut lru, expired_keys[j].as_str());
            j += 1;
        }
        assert(ks.take(j as int) =~= ks);
        proof {
            lemma_fresh_only_wf(s0, now as int, self.ttl);
        }
        self.lru = lru;
    }

}

/// Whether an entry stored at `cached_at` has expired at `now`.
pub fn is_expired(cached_at: i64, now: i64, ttl: u64) -> (b: bool)
    ensures
        b == expired(cached_at, now as int, ttl),
{
    let limit: i128 = if ttl <= MAX_TTL_SECONDS {
        ttl as i128
    } else {
        0
    };
    now as i128 - cached_at as i128 > limit
}

/// The texts of a list of keys.
pub open spec fn keys_of(v: Seq<String>) -> Seq<Seq<char>> {
    v.map_values(|s: String| s@)
}

/// The keys of the expired entries, in order.
pub open spec fn expired_keys_of(s: Seq<(Seq<char>, RepoCacheEntry)>, now: int, ttl: u64) -> Seq<
    Seq<char>,
>
    decreases s.len(),
{
    if s.len() == 0 {
        seq![]
    } else if expired(s.last().1.cached_at, now, ttl) {
        expired_keys_of(s.drop_last(), now, ttl).push(s.last().0)
    } else {
        expired_keys_of(s.drop_last(), now, ttl)
    }
}

/// The entries without those under any of the keys, removed one key at a
/// time.
pub open spec fn without_keys<E>(s: Seq<(Seq<char>, E)>, ks: Seq<Seq<char>>) -> Seq<(Seq<char>, E)>
    decreases ks.len(),
{
    if ks.len() == 0 {
        s
    } else {
        without_key(without_keys(s, ks.drop_last()), ks.last())
    }
}

proof fn lemma_expired_keys_push(s: Seq<(Seq<char>, RepoCacheEntry)>, i: int, now: int, ttl: u64)
    requires
        0 <= i < s.len(),
    ensures
        expired_keys_of(s.take(i + 1), now, ttl) == if expired(s[i].1.cached_at, now, ttl) {
            expired_keys_of(s.take(i), now, ttl).push(s[i].0)
        } else {
            expired_keys_of(s.take(i), now, ttl)
        },
{
    assert(s.take(i + 1).drop_last() =~= s.take(i));
}

/// Entries of `without_key` are entries of `s`, `k` is gone, others keep
/// their first values, and distinct keys stay distinct.
proof fn lemma_without_key<E>(s: Seq<(Seq<char>, E)>, k: Seq<char>)
    ensures
        lookup(without_key(s, k), k) is None,
        forall|k2: Seq<char>| k2 != k ==> lookup(without_key(s, k), k2) == lookup(s, k2),
        forall|i: int|
            0 <= i < without_key(s, k).len() ==> exists|j: int|
                0 <= j < s.len() && #[trigger] without_key(s, k)[i] == s[j],
        distinct_keys(s) ==> distinct_keys(without_key(s, k)),
        without_key(s, k).len() <= s.len(),
        distinct_keys(s) && lookup(s, k) is Some ==> without_key(s, k).len() == s.len() - 1,
        lookup(s, k) is None ==> without_key(s, k) == s,
    decreases s.len(),
{
    if s.len() > 0 {
        let t = s.drop_first();
        lemma_without_key(t, k);
        lemma_lookup_some_key(t, k);
        if s[0].0 == k {
            assert forall|k2: Seq<char>| k2 != k implies lookup(without_key(s, k), k2) == lookup(s, k2) by {
                assert(lookup(without_key(t, k), k2) == lookup(t, k2));
            }
            if distinct_keys(s) {
                assert(distinct_keys(t));
                assert(lookup(t, k) is None) by {
                    if lookup(t, k) is Some {
                        let j = lemma_lookup_index(t, k);
                        assert(s[j + 1].0 == k);
                        assert(s[0].0 == s[j + 1].0);
                    }
                }
            }
            assert forall|i: int| 0 <= i < without_key(s, k).len() implies exists|j: int|
                0 <= j < s.len() && #[trigger] without_key(s, k)[i] == s[j] by {
                let j = choose|j: int| 0 <= j < t.len() && without_key(t, k)[i] == t[j];
                assert(without_key(s, k)[i] == s[j + 1]);
            }
        } else {
            let w = without_key(s, k);
            assert(w == seq![s[0]] + without_key(t, k));
            assert forall|i: int| 0 <= i < w.len() implies exists|j: int|
                0 <= j < s.len() && #[trigger] w[i] == s[j] by {
                if i == 0 {
                    assert(w[0] == s[0]);
                } else {
                    let j = choose|j: int| 0 <= j < t.len() && without_key(t, k)[i - 1] == t[j];
                    assert(w[i] == s[j + 1]);
                }
            }
            assert forall|k2: Seq<char>| k2 != k implies lookup(w, k2) == lookup(s, k2) by {
                assert(w.drop_first() =~= without_key(t, k));
                assert(lookup(without_key(t, k), k2) == lookup(t, k2));
            }
            assert(lookup(w, k) is None) by {
                assert(w.drop_first() =~= without_key(t, k));
            }
            if distinct_keys(s) {
                assert(distinct_keys(t));
                assert forall|a: int, b: int| 0 <= a < b < w.len() implies #[trigger] w[a].0
                    != #[trigger] w[b].0 by {
                    if a == 0 {
                        let j = choose|j: int| 0 <= j < t.len() && without_key(t, k)[b - 1] == t[j];
                        assert(w[b] == s[j + 1]);
                    } else {
                        assert(w[a] == without_key(t, k)[a - 1]);
                        assert(w[b] == without_key(t, k)[b - 1]);
                    }
                }
            }
            if lookup(s, k) is None {
                assert(w =~= s);
            }
        }
    }
}

/// A found key sits at some index.
proof fn lemma_lookup_index<E>(s: Seq<(Seq<char>, E)>, k: Seq<char>) -> (j: int)
    requires
        lookup(s, k) is Some,
    ensures
        0 <= j < s.len(),
        s[j].0 == k,
        lookup(s, k) == Some(s[j].1),
    decreases s.len(),
{
    if s[0].0 == k {
        0
    } else {
        let j = lemma_lookup_index(s.drop_first(), k);
        j + 1
    }
}

/// A key present at some index is found.
proof fn lemma_lookup_some_key<E>(s: Seq<(Seq<char>, E)>, k: Seq<char>)
    ensures
        (exists|j: int| 0 <= j < s.len() && #[trigger] s[j].0 == k) ==> lookup(s, k) is Some,
    decreases s.len(),
{
    if s.len() > 0 {
        lemma_lookup_some_key(s.drop_first(), k);
        if exists|j: int| 0 <= j < s.len() && #[trigger] s[j].0 == k {
            let j = choose|j: int| 0 <= j < s.len() && #[trigger] s[j].0 == k;
            if j > 0 {
                assert(s.drop_first()[j - 1].0 == k);
            }
        }
    }
}

proof fn lemma_after_get(s: Seq<(Seq<char>, RepoCacheEntry)>, k: Seq<char>)
    requires
        distinct_keys(s),
    ensures
        distinct_keys(after_get(s, k)),
        after_get(s, k).len() == s.len(),
{
    lemma_without_key(s, k);
    if lookup(s, k) is Some {
        lemma_front_distinct(without_key(s, k), k, lookup(s, k)->0);
    }
}

/// Putting a key before entries without it keeps keys distinct.
proof fn lemma_front_distinct<E>(w: Seq<(Seq<char>, E)>, k: Seq<char>, v: E)
    requires
        distinct_keys(w),
        lookup(w, k) is None,
    ensures
        distinct_keys(seq![(k, v)] + w),
{
    lemma_lookup_some_key(w, k);
    let f = seq![(k, v)] + w;
    assert forall|a: int, b: int| 0 <= a < b < f.len() implies #[trigger] f[a].0 != #[trigger] f[b].0 by {
        if a == 0 {
            assert(f[b] == w[b - 1]);
        } else {
            assert(f[a] == w[a - 1]);
            assert(f[b] == w[b - 1]);
        }
    }
}

proof fn lemma_after_put(s: Seq<(Seq<char>, RepoCacheEntry)>, cap: nat, k: Seq<char>, v: RepoCacheEntry)
    requires
        distinct_keys(s),
        s.len() <= cap,
        cap >= 1,
    ensures
        distinct_keys(after_put(s, cap, k, v)),
        after_put(s, cap, k, v).len() <= cap,
        lookup(after_put(s, cap, k, v), k) == Some(v),
{
    if lookup(s, k) is Some {
        lemma_without_key(s, k);
        lemma_front_distinct(without_key(s, k), k, v);
    } else {
        let t = if s.len() >= cap {
            s.drop_last()
        } else {
            s
        };
        assert(distinct_keys(t));
        assert(lookup(t, k) is None) by {
            lemma_lookup_some_key(s, k);
            if lookup(t, k) is Some {
                let j = lemma_lookup_index(t, k);
                assert(s[j].0 == k);
            }
        }
        lemma_front_distinct(t, k, v);
    }
}

/// Removing keys that an entry does not have commutes with that entry at
/// the front.
proof fn lemma_without_keys_front<E>(e: (Seq<char>, E), t: Seq<(Seq<char>, E)>, ks: Seq<Seq<char>>)
    requires
        !ks.contains(e.0),
    ensures
        without_keys(seq![e] + t, ks) == seq![e] + without_keys(t, ks),
    decreases ks.len(),
{
    if ks.len() > 0 {
        assert(!ks.drop_last().contains(e.0)) by {
            if ks.drop_last().contains(e.0) {
                let i = choose|i: int| 0 <= i < ks.drop_last().len() && ks.drop_last()[i] == e.0;
                assert(ks[i] == e.0);
            }
        }
        lemma_without_keys_front(e, t, ks.drop_last());
        let u = seq![e] + without_keys(t, ks.drop_last());
        assert(u[0] == e);
        assert(u.drop_first() =~= without_keys(t, ks.drop_last()));
        assert(e.0 != ks.last());
    }
}

/// Removing a first key and then the rest is removing them all.
proof fn lemma_without_keys_first<E>(s: Seq<(Seq<char>, E)>, k: Seq<char>, ks: Seq<Seq<char>>)
    ensures
        without_keys(s, seq![k] + ks) == without_keys(without_key(s, k), ks),
    decreases ks.len(),
{
    if ks.len() == 0 {
        let one = seq![k] + ks;
        assert(one.drop_last() =~= Seq::<Seq<char>>::empty());
        assert(one.last() == k);
        assert(without_keys(s, one.drop_last()) == s);
        assert(without_keys(without_key(s, k), ks) == without_key(s, k));
    } else {
        lemma_without_keys_first(s, k, ks.drop_last());
        assert((seq![k] + ks).drop_last() =~= seq![k] + ks.drop_last());
        assert((seq![k] + ks).last() == ks.last());
    }
}

/// Keys of expired entries are keys of the entries.
proof fn lemma_expired_keys_in(s: Seq<(Seq<char>, RepoCacheEntry)>, now: int, ttl: u64, k: Seq<char>)
    requires
        expired_keys_of(s, now, ttl).contains(k),
    ensures
        exists|j: int| 0 <= j < s.len() && #[trigger] s[j].0 == k,
    decreases s.len(),
{
    let rest = expired_keys_of(s.drop_last(), now, ttl);
    if rest.contains(k) {
        lemma_expired_keys_in(s.drop_last(), now, ttl, k);
        let j = choose|j: int| 0 <= j < s.drop_last().len() && #[trigger] s.drop_last()[j].0 == k;
        assert(s[j].0 == k);
    } else {
        let i = choose|i: int| 0 <= i < expired_keys_of(s, now, ttl).len() && expired_keys_of(s, now, ttl)[i] == k;
        assert(s[s.len() - 1].0 == k);
    }
}

/// The keys of the expired entries, in order, read from the front.
proof fn lemma_expired_keys_front(s: Seq<(Seq<char>, RepoCacheEntry)>, now: int, ttl: u64)
    requires
        s.len() > 0,
    ensures
        expired_keys_of(s, now, ttl) == if expired(s[0].1.cached_at, now, ttl) {
            seq![s[0].0] + expired_keys_of(s.drop_first(), now, ttl)
        } else {
            expired_keys_of(s.drop_first(), now, ttl)
        },
    decreases s.len(),
{
    if s.len() > 1 {
        lemma_expired_keys_front(s.drop_last(), now, ttl);
        assert(s.drop_last().drop_first() =~= s.drop_first().drop_last());
        assert(s.drop_first().last() == s.last());
        if expired(s[0].1.cached_at, now, ttl) {
            assert((seq![s[0].0] + expired_keys_of(s.drop_first().drop_last(), now, ttl)).push(s.last().0)
                =~= seq![s[0].0] + expired_keys_of(s.drop_first().drop_last(), now, ttl).push(s.last().0));
        }
    } else {
        assert(s.drop_last() =~= Seq::<(Seq<char>, RepoCacheEntry)>::empty());
        assert(s.drop_first() =~= Seq::<(Seq<char>, RepoCacheEntry)>::empty());
        assert(s.last() == s[0]);
    }
}

/// Removing the keys of the expired entries leaves the entries that have
/// not expired.
proof fn lemma_without_expired(s: Seq<(Seq<char>, RepoCacheEntry)>, now: int, ttl: u64)
    requires
        distinct_keys(s),
    ensures
        without_keys(s, expired_keys_of(s, now, ttl)) == fresh_only(s, now, ttl),
    decreases s.len(),
{
    if s.len() == 0 {
    } else {
        let t = s.drop_first();
        assert(distinct_keys(t));
        lemma_without_expired(t, now, ttl);
        lemma_expired_keys_front(s, now, ttl);
        assert(s =~= seq![s[0]] + t);
        let ek = expired_keys_of(t, now, ttl);
        assert(!ek.contains(s[0].0)) by {
            if ek.contains(s[0].0) {
                lemma_expired_keys_in(t, now, ttl, s[0].0);
                let j = choose|j: int| 0 <= j < t.len() && #[trigger] t[j].0 == s[0].0;
                assert(s[j + 1].0 == s[0].0);
            }
        }
        if expired(s[0].1.cached_at, now, ttl) {
            lemma_without_keys_first(s, s[0].0, ek);
            lemma_without_key(t, s[0].0);
            lemma_lookup_some_key(t, s[0].0);
            assert(lookup(t, s[0].0) is None) by {
                if lookup(t, s[0].0) is Some {
                    let j = lemma_lookup_index(t, s[0].0);
                    assert(s[j + 1].0 == s[0].0);
                }
            }
            assert(without_key(s, s[0].0) == without_key(t, s[0].0));
        } else {
            lemma_without_keys_front(s[0], t, ek);
        }
    }
}

/// The entries that have not expired keep distinct keys and fit.
proof fn lemma_fresh_only_wf(s: Seq<(Seq<char>, RepoCacheEntry)>, now: int, ttl: u64)
    requires
        distinct_keys(s),
    ensures
        distinct_keys(fresh_only(s, now, ttl)),
        fresh_only(s, now, ttl).len() <= s.len(),
        forall|i: int|
            0 <= i < fresh_only(s, now, ttl).len() ==> exists|j: int|
                0 <= j < s.len() && #[trigger] fresh_only(s, now, ttl)[i] == s[j],
    decreases s.len(),
{
    if s.len() > 0 {
        let t = s.drop_first();
        assert(distinct_keys(t));
        lemma_fresh_only_wf(t, now, ttl);
        let f = fresh_only(s, now, ttl);
        let ft = fresh_only(t, now, ttl);
        assert forall|i: int| 0 <= i < f.len() implies exists|j: int|
            0 <= j < s.len() && #[trigger] f[i] == s[j] by {
            if expired(s[0].1.cached_at, now, ttl) {
                let j = choose|j: int| 0 <= j < t.len() && ft[i] == t[j];
                assert(f[i] == s[j + 1]);
            } else if i == 0 {
                assert(f[0] == s[0]);
            } else {
                let j = choose|j: int| 0 <= j < t.len() && ft[i - 1] == t[j];
                assert(f[i] == s[j + 1]);
            }
        }
        if !expired(s[0].1.cached_at, now, ttl) {
            assert forall|a: int, b: int| 0 <= a < b < f.len() implies #[trigger] f[a].0
                != #[trigger] f[b].0 by {
                if a == 0 {
                    let j = choose|j: int| 0 <= j < t.len() && ft[b - 1] == t[j];
                    assert(f[b] == s[j + 1]);
                } else {
                    assert(f[a] == ft[a - 1]);
                    assert(f[b] == ft[b - 1]);
                }
            }
        }
    }
}


/// An entry as a value: its key, its result, the text of the commit it was
/// computed at and when it was stored.
pub open spec fn entry_view(e: (Seq<char>, RepoCacheEntry)) -> (Seq<char>, (RepositoryResult, Seq<char>, i64)) {
    (e.0, (e.1.result, e.1.commit_hash@, e.1.cached_at))
}

/// The entries as values, in order.
pub open spec fn entry_views(s: Seq<(Seq<char>, RepoCacheEntry)>) -> Seq<(Seq<char>, (RepositoryResult, Seq<char>, i64))> {
    s.map_values(|e: (Seq<char>, RepoCacheEntry)| entry_view(e))
}

proof fn lemma_views_lookup(s: Seq<(Seq<char>, RepoCacheEntry)>, k: Seq<char>)
    ensures
        (lookup(entry_views(s), k) is Some) == (lookup(s, k) is Some),
    decreases s.len(),
{
    if s.len() > 0 {
        assert(entry_views(s).drop_first() =~= entry_views(s.drop_first()));
        lemma_views_lookup(s.drop_first(), k);
    }
}

proof fn lemma_views_without(s: Seq<(Seq<char>, RepoCacheEntry)>, k: Seq<char>)
    ensures
        entry_views(without_key(s, k)) == without_key(entry_views(s), k),
    decreases s.len(),
{
    if s.len() > 0 {
        assert(entry_views(s).drop_first() =~= entry_views(s.drop_first()));
        lemma_views_without(s.drop_first(), k);
        if s[0].0 != k {
            assert(entry_views(seq![s[0]] + without_key(s.drop_first(), k)) =~= seq![entry_view(s[0])]
                + entry_views(without_key(s.drop_first(), k)));
        }
    } else {
        assert(entry_views(s) =~= Seq::<(Seq<char>, (RepositoryResult, Seq<char>, i64))>::empty());
    }
}

/// Storing an entry changes the entries' values as storing its value would.
pub proof fn lemma_views_after_put(s: Seq<(Seq<char>, RepoCacheEntry)>, cap: nat, k: Seq<char>, v: RepoCacheEntry)
    requires
        cap >= 1,
    ensures
        entry_views(after_put(s, cap, k, v)) == after_put(entry_views(s), cap, k, (v.result, v.commit_hash@, v.cached_at)),
{
    lemma_views_lookup(s, k);
    lemma_views_without(s, k);
    let t = if lookup(s, k) is Some {
        without_key(s, k)
    } else if s.len() >= cap {
        s.drop_last()
    } else {
        s
    };
    if s.len() > 0 {
        assert(entry_views(s.drop_last()) =~= entry_views(s).drop_last());
    }
    assert(entry_views(seq![(k, v)] + t) =~= seq![(k, (v.result, v.commit_hash@, v.cached_at))] + entry_views(t));
}

/// Read after write: a result stored under a key at a commit is served by
/// the next lookup of that key at that commit, as long as the entry has not
/// expired.
pub proof fn law_lookup_after_store(
    c0: SearchCache,
    c1: SearchCache,
    c2: SearchCache,
    key: Seq<char>,
    result: RepositoryResult,
    sha: String,
    stored_at: i64,
    now: int,
    r: Option<RepositoryResult>,
)
    requires
        c0.wf(),
        SearchCache::store_post(
            c0,
            c1,
            key,
            RepoCacheEntry { result, commit_hash: sha, cached_at: stored_at },
        ),
        SearchCache::lookup_post(c1, c2, key, sha@, now, r),
        !expired(stored_at, now, c0.ttl()),
    ensures
        r == Some(result),
        c2.hits() == next_count(c0.hits()),
        c2.misses() == c0.misses(),
{
    lemma_after_put(
        c0.entries(),
        c0.capacity(),
        key,
        RepoCacheEntry { result, commit_hash: sha, cached_at: stored_at },
    );
}

/// A lookup at another commit than the stored one is never served: a
/// result is only reused for the commit it was computed at.
pub proof fn law_lookup_other_commit(
    c0: SearchCache,
    c1: SearchCache,
    key: Seq<char>,
    sha: Seq<char>,
    now: int,
    r: Option<RepositoryResult>,
)
    requires
        c0.wf(),
        SearchCache::lookup_post(c0, c1, key, sha, now, r),
        lookup(c0.entries(), key) matches Some(e) && e.commit_hash@ != sha,
    ensures
        r is None,
        c1.misses() == next_count(c0.misses()),
{
}

/// Every lookup counts once: either the hits or the misses advance, by one.
pub proof fn law_lookup_counts_once(
    c0: SearchCache,
    c1: SearchCache,
    key: Seq<char>,
    sha: Seq<char>,
    now: int,
    r: Option<RepositoryResult>,
)
    requires
        SearchCache::lookup_post(c0, c1, key, sha, now, r),
    ensures
        (r is Some && c1.hits() == next_count(c0.hits()) && c1.misses() == c0.misses()) || (r is None
            && c1.hits() == c0.hits() && c1.misses() == next_count(c0.misses())),
{
}

/// The cache never holds more entries than its capacity, and a key at most
/// once, after any of its operations.
pub proof fn law_bounded(c: SearchCache)
    requires
        c.wf(),
    ensures
        c.entries().len() <= c.capacity(),
        forall|i: int, j: int|
            0 <= i < j < c.entries().len() ==> c.entries()[i].0 != c.entries()[j].0,
{
}

/// Storing a new key in a full cache evicts the least recently used entry
/// and nothing else.
pub proof fn law_store_evicts_least_recent(
    c0: SearchCache,
    c1: SearchCache,
    key: Seq<char>,
    entry: RepoCacheEntry,
)
    requires
        c0.wf(),
        SearchCache::store_post(c0, c1, key, entry),
        lookup(c0.entries(), key) is None,
        c0.entries().len() == c0.capacity(),
    ensures
        c1.entries().len() == c0.entries().len(),
        c1.entries() == seq![(key, entry)] + c0.entries().drop_last(),
{
}

/// After removing the expired entries, exactly the entries that had not
/// expired remain: none has expired, and none that had not was removed.
pub proof fn law_cleanup_keeps_fresh(c0: SearchCache, c1: SearchCache, now: int)
    requires
        c0.wf(),
        SearchCache::cleanup_post(c0, c1, now),
    ensures
        forall|i: int|
            0 <= i < c1.entries().len() ==> !expired(
                #[trigger] c1.entries()[i].1.cached_at,
                now,
                c0.ttl(),
            ),
        forall|j: int|
            0 <= j < c0.entries().len() && !expired(#[trigger] c0.entries()[j].1.cached_at, now, c0.ttl())
                ==> c1.entries().contains(c0.entries()[j]),
{
    lemma_fresh_members(c0.entries(), now, c0.ttl());
}

/// The entries kept are those that have not expired.
proof fn lemma_fresh_members(s: Seq<(Seq<char>, RepoCacheEntry)>, now: int, ttl: u64)
    ensures
        forall|i: int|
            0 <= i < fresh_only(s, now, ttl).len() ==> !expired(
                #[trigger] fresh_only(s, now, ttl)[i].1.cached_at,
                now,
                ttl,
            ),
        forall|j: int|
            0 <= j < s.len() && !expired(#[trigger] s[j].1.cached_at, now, ttl)
                ==> fresh_only(s, now, ttl).contains(s[j]),
    decreases s.len(),
{
    if s.len() > 0 {
        let t = s.drop_first();
        lemma_fresh_members(t, now, ttl);
        let f = fresh_only(s, now, ttl);
        let ft = fresh_only(t, now, ttl);
        assert forall|i: int| 0 <= i < f.len() implies !expired(#[trigger] f[i].1.cached_at, now, ttl) by {
            if !expired(s[0].1.cached_at, now, ttl) && i > 0 {
                assert(f[i] == ft[i - 1]);
            }
        }
        assert forall|j: int| 0 <= j < s.len() && !expired(#[trigger] s[j].1.cached_at, now, ttl)
            implies f.contains(s[j]) by {
            if j == 0 {
                assert(f[0] == s[0]);
            } else {
                assert(s[j] == t[j - 1]);
                assert(ft.contains(t[j - 1]));
                let i = choose|i: int| 0 <= i < ft.len() && ft[i] == t[j - 1];
                if expired(s[0].1.cached_at, now, ttl) {
                    assert(f[i] == s[j]);
                } else {
                    assert(f[i + 1] == s[j]);
                }
            }
        }
    }
}

} // verus!
