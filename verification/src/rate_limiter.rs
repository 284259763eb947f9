//! The client side of GitHub's rate limit: how many requests remain until
//! the limit resets, and whether to proceed, wait or give up.

use vstd::prelude::*;
use crate::search::SearchError;

verus! {

/// Requests allowed in a fresh rate limit window.
pub const DEFAULT_LIMIT: u32 = 5000;

/// Length of a rate limit window, in seconds.
pub const WINDOW: i64 = 3600;

/// The longest wait for a reset, in seconds, before giving up.
pub const MAX_WAIT: i64 = 300;

/// The latest time the limiter works with, so that a window can be added
/// to it.
pub open spec fn time_ok(t: i64) -> bool {
    t <= i64::MAX - WINDOW
}

/// The requests remaining until the limit resets. Times are in seconds
/// since the Unix epoch.
#[derive(Clone, Debug)]
pub struct RateLimiter {
    pub remaining: u32,
    pub reset_time: i64,
    pub last_check: i64,
}

/// What to do before a request.
#[derive(Clone, Copy, Debug, PartialEq, Eq, Structural)]
pub enum Pacing {
    /// Go ahead.
    Proceed,
    /// Wait this many seconds for the reset, then go ahead.
    Wait(u64),
}

/// Whether a request may be made at `now`: some remain, or the limit has
/// reset.
pub open spec fn may_request(l: RateLimiter, now: int) -> bool {
    l.remaining > 0 || now > l.reset_time
}

/// How to pace a request at `now` with a reserve of `buffer` requests: with
/// no more than the reserve left before the reset, wait for the reset, or
/// give up when it is more than five minutes away.
pub open spec fn pacing(l: RateLimiter, buffer: u32, now: int) -> Result<Pacing, SearchError> {
    if l.remaining <= buffer && now < l.reset_time {
        if l.reset_time - now > MAX_WAIT {
            Err(SearchError::RateLimitExceeded { remaining: l.remaining, reset_time: l.reset_time })
        } else {
            Ok(Pacing::Wait((l.reset_time - now) as u64))
        }
    } else {
        Ok(Pacing::Proceed)
    }
}

impl RateLimiter {
    /// A fresh window at `now`: 5000 requests, resetting in an hour.
    pub fn new(now: i64) -> (l: RateLimiter)
        requires
            time_ok(now),
        ensures
            l.remaining == DEFAULT_LIMIT,
            l.reset_time == now + WINDOW,
            l.last_check == now,
    {
        RateLimiter { remaining: DEFAULT_LIMIT, reset_time: now + WINDOW, last_check: now }
    }

    /// Records what the API reported at `now`.
    pub fn update(&mut self, remaining: u32, reset_time: i64, now: i64)
        ensures
            final(self).remaining == remaining,
            final(self).reset_time == reset_time,
            final(self).last_check == now,
    {
        self.remaining = remaining;
        self.reset_time = reset_time;
        self.last_check = now;
    }

    /// Whether a request may be made at `now`.
    pub fn can_make_request(&self, now: i64) -> (b: bool)
        ensures
            b == may_request(*self, now as int),
    {
        self.remaining > 0 || now > self.reset_time
    }

    /// Starts a fresh window when the current one has passed at `now`.
    pub fn check_and_reset_if_expired(&mut self, now: i64)
        requires
            time_ok(now),
        ensures
            if now > old(self).reset_time {
                &&& final(self).remaining == DEFAULT_LIMIT
                &&& final(self).reset_time == now + WINDOW
                &&& final(self).last_check == now
            } else {
                *final(self) == *old(self)
            },
    {
        if now > self.reset_time {
            self.remaining = DEFAULT_LIMIT;
            self.reset_time = now + WINDOW;
            self.last_check = now;
        }
    }

    /// How to pace a request at `now`, keeping `buffer` requests in
    /// reserve.
    pub fn wait_if_needed(&self, buffer: u32, now: i64) -> (r: Result<Pacing, SearchError>)
        ensures
            r == pacing(*self, buffer, now as int),
    {
        if self.remaining <= buffer && now < self.reset_time {
            let wait: i128 = self.reset_time as i128 - now as i128;
            if wait > MAX_WAIT as i128 {
                Err(SearchError::RateLimitExceeded { remaining: self.remaining, reset_time: self.reset_time })
            } else {
                Ok(Pacing::Wait(wait as u64))
            }
        } else {
            Ok(Pacing::Proceed)
        }
    }
}

/// The reset time the limiter records from the API's report at `now`: the
/// reported time when chrono represents it, else an hour from now.
pub fn reported_reset_time(reset: i64, now: i64) -> (t: i64)
    requires
        time_ok(now),
    ensures
        t == if crate::search::representable(reset) {
            reset as int
        } else {
            now + WINDOW
        },
{
    if crate::search::timestamp_representable(reset) {
        reset
    } else {
        now + WINDOW
    }
}

/// Whether a search may go ahead at `now`, and how: the window is renewed
/// when it has passed; without requests left the search fails with the
/// rate limit error; else it is paced.
pub open spec fn admission(l: RateLimiter, buffer: u32, now: int) -> (RateLimiter, Result<Pacing, SearchError>) {
    let renewed = if now > l.reset_time {
        RateLimiter { remaining: DEFAULT_LIMIT, reset_time: (now + WINDOW) as i64, last_check: now as i64 }
    } else {
        l
    };
    if !may_request(renewed, now) {
        (renewed, Err(SearchError::RateLimitExceeded { remaining: renewed.remaining, reset_time: renewed.reset_time }))
    } else {
        (renewed, pacing(renewed, buffer, now))
    }
}

/// Admits a search at `now`: renews a passed window, refuses when no
/// request is left, and paces it otherwise.
pub fn admit_search(l: &mut RateLimiter, buffer: u32, now: i64) -> (r: Result<Pacing, SearchError>)
    requires
        time_ok(now),
    ensures
        (*final(l), r) == admission(*old(l), buffer, now as int),
{
    l.check_and_reset_if_expired(now);
    if !l.can_make_request(now) {
        return Err(SearchError::RateLimitExceeded { remaining: l.remaining, reset_time: l.reset_time });
    }
    l.wait_if_needed(buffer, now)
}

/// A renewed window admits a request: after the reset time has passed, a
/// search with a reserve below the window's 5000 requests is neither
/// refused nor delayed.
pub proof fn law_renewed_window_admits(l: RateLimiter, buffer: u32, now: i64)
    requires
        time_ok(now),
        now > l.reset_time,
        buffer < DEFAULT_LIMIT,
    ensures
        admission(l, buffer, now as int).0.remaining == DEFAULT_LIMIT,
        may_request(admission(l, buffer, now as int).0, now as int),
        admission(l, buffer, now as int).1 == Ok::<Pacing, SearchError>(Pacing::Proceed),
{
}

/// A search is refused outright only with no requests left before the
/// reset, and a wait never exceeds five minutes.
pub proof fn law_admission_bounds(l: RateLimiter, buffer: u32, now: i64)
    requires
        time_ok(now),
    ensures
        admission(l, buffer, now as int).1 matches Ok(Pacing::Wait(w)) ==> 0 < w <= MAX_WAIT,
        admission(l, buffer, now as int).1 is Err ==> now <= admission(l, buffer, now as int).0.reset_time
            && admission(l, buffer, now as int).0.remaining <= buffer,
{
}

} // verus!
