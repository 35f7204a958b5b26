//! A fixed-window request limiter with per-route limits.
//!
//! The limiter counts the requests admitted since its window opened. A
//! request that arrives while the window is open is admitted as long as the
//! count is below the limit of its route. A request that arrives once the
//! window has run its length opens a new window and is its first request.
//! The window is shared by all routes; only the length and the limit are
//! looked up per route. Callers that share a limiter between threads keep it
//! behind a lock, so that each decision sees the state its predecessor left.
//!
//! Times and lengths are milliseconds on a clock of the caller's choosing.

use vstd::hash_map::StringHashMap;
use vstd::prelude::*;

verus! {

/// Window length of a route without configuration: one minute.
pub const DEFAULT_INTERVAL: u64 = 60_000;

/// Request limit of a route without configuration.
pub const DEFAULT_MAX_REQUESTS: u32 = 20;

/// Window length and request limit of one route.
#[derive(Clone, Copy, Debug, PartialEq, Eq, Structural)]
pub struct RateLimitConfig {
    pub interval: u64,
    pub max_requests: u32,
}

/// The limiter's answer to one request.
#[derive(Clone, Copy, Debug, PartialEq, Eq, Structural)]
pub enum Decision {
    Admitted,
    Rejected,
}

/// The request counter, the start of its window, and the routes' limits.
pub struct RateLimiter {
    requests: u32,
    reset_time: u64,
    config: StringHashMap<RateLimitConfig>,
}

/// What a [`RateLimiter`] holds.
pub struct LimiterView {
    /// Requests admitted in the current window.
    pub requests: u32,
    /// When the current window opened.
    pub reset_time: u64,
    /// The configured routes.
    pub config: Map<Seq<char>, RateLimitConfig>,
}

/// The configuration that applies where a route has none.
pub open spec fn default_config() -> RateLimitConfig {
    RateLimitConfig { interval: DEFAULT_INTERVAL, max_requests: DEFAULT_MAX_REQUESTS }
}

/// Time passed at `now` since `start`; none if the clock reads earlier.
pub open spec fn elapsed(start: u64, now: u64) -> int {
    if now >= start {
        now - start
    } else {
        0
    }
}

impl LimiterView {
    /// A limiter created at `now`.
    pub open spec fn fresh(now: u64) -> LimiterView {
        LimiterView { requests: 0, reset_time: now, config: Map::empty() }
    }

    /// The configuration under which requests for `path` are judged.
    pub open spec fn config_for(self, path: Seq<char>) -> RateLimitConfig {
        if self.config.contains_key(path) {
            self.config[path]
        } else {
            default_config()
        }
    }

    /// Whether the window is still open at `now`, for a window of `interval`.
    pub open spec fn window_open(self, now: u64, interval: u64) -> bool {
        elapsed(self.reset_time, now) < interval
    }

    /// Whether a request at `now` is turned away.
    pub open spec fn limits(self, now: u64, interval: u64, max_requests: u32) -> bool {
        self.window_open(now, interval) && self.requests >= max_requests
    }

    /// The limiter after it has judged a request at `now`.
    pub open spec fn judged(self, now: u64, interval: u64, max_requests: u32) -> LimiterView {
        if !self.window_open(now, interval) {
            LimiterView { requests: 1, reset_time: now, ..self }
        } else if self.requests < max_requests {
            LimiterView { requests: (self.requests + 1) as u32, ..self }
        } else {
            self
        }
    }

    /// The decision on a request for `path` at `now`.
    pub open spec fn decision(self, path: Seq<char>, now: u64) -> Decision {
        let config = self.config_for(path);
        if self.limits(now, config.interval, config.max_requests) {
            Decision::Rejected
        } else {
            Decision::Admitted
        }
    }

    /// The limiter after a request for `path` at `now`.
    pub open spec fn checked(self, path: Seq<char>, now: u64) -> LimiterView {
        let config = self.config_for(path);
        self.judged(now, config.interval, config.max_requests)
    }

    /// The limiter after requests for `path` at each of `times`, in order.
    pub open spec fn checked_all(self, path: Seq<char>, times: Seq<u64>) -> LimiterView
        decreases times.len(),
    {
        if times.len() == 0 {
            self
        } else {
            self.checked_all(path, times.drop_last()).checked(path, times.last())
        }
    }

    /// How many of the requests for `path` at `times` are admitted.
    pub open spec fn admitted(self, path: Seq<char>, times: Seq<u64>) -> nat
        decreases times.len(),
    {
        if times.len() == 0 {
            0
        } else {
            let earlier = times.drop_last();
            let last = self.checked_all(path, earlier).decision(path, times.last());
            self.admitted(path, earlier) + if last == Decision::Admitted {
                1nat
            } else {
                0nat
            }
        }
    }

    /// Every one of `times` falls into the window that is open now, for a
    /// window of `interval`.
    pub open spec fn all_in_window(self, interval: u64, times: Seq<u64>) -> bool {
        forall|i: int| 0 <= i < times.len() ==> self.window_open(#[trigger] times[i], interval)
    }
}

impl RateLimitConfig {
    /// A window of `interval` milliseconds that admits `max_requests`.
    pub fn new(interval: u64, max_requests: u32) -> (config: Self)
        ensures
            config.interval == interval,
            config.max_requests == max_requests,
    {
        RateLimitConfig { interval, max_requests }
    }
}

impl View for RateLimiter {
    type V = LimiterView;

    closed spec fn view(&self) -> LimiterView {
        LimiterView {
            requests: self.requests,
            reset_time: self.reset_time,
            config: self.config@,
        }
    }
}

impl RateLimiter {
    /// Create a new RateLimiter, whose first window opens at `now`.
    pub fn new(now: u64) -> (limiter: Self)
        ensures
            limiter@ == LimiterView::fresh(now),
    {
        RateLimiter { requests: 0, reset_time: now, config: StringHashMap::new() }
    }

    /// Registers `config` for `path`, in place of what was registered
    /// before. The counter and its window are left as they are.
    pub fn add_config(&mut self, path: &str, config: RateLimitConfig)
        ensures
            final(self)@ == (LimiterView {
                config: old(self)@.config.insert(path@, config),
                ..old(self)@
            }),
    {
        self.config.insert(path.to_owned(), config);
    }

    /// The configuration under which requests for `path` are judged: the
    /// registered one, or the default.
    pub fn config_for(&self, path: &str) -> (config: RateLimitConfig)
        ensures
            config == self@.config_for(path@),
    {
        match self.config.get(path) {
            Some(config) => *config,
            None => RateLimitConfig::new(DEFAULT_INTERVAL, DEFAULT_MAX_REQUESTS),
        }
    }

    /// Requests admitted in the current window.
    pub fn requests(&self) -> (count: u32)
        ensures
            count == self@.requests,
    {
        self.requests
    }

    /// When the current window opened.
    pub fn reset_time(&self) -> (start: u64)
        ensures
            start == self@.reset_time,
    {
        self.reset_time
    }

    /// Judges a request at `now` under the given window length and limit,
    /// and counts it if it is admitted. Returns whether it is turned away.
    pub fn should_limit(&mut self, now: u64, interval: u64, max_requests: u32) -> (limited: bool)
        ensures
            limited == old(self)@.limits(now, interval, max_requests),
            final(self)@ == old(self)@.judged(now, interval, max_requests),
    {
        let waited = if now >= self.reset_time {
            now - self.reset_time
        } else {
            0
        };
        if waited < interval {
            if self.requests < max_requests {
                self.requests = self.requests + 1;
                false
            } else {
                true
            }
        } else {
            self.reset_time = now;
            self.requests = 1;
            false
        }
    }

    /// Decides whether a request for `path` arriving at `now` may proceed.
    pub fn check(&mut self, path: &str, now: u64) -> (decision: Decision)
        ensures
            decision == old(self)@.decision(path@, now),
            final(self)@ == old(self)@.checked(path@, now),
    {
        let config = self.config_for(path);
        if self.should_limit(now, config.interval, config.max_requests) {
            Decision::Rejected
        } else {
            Decision::Admitted
        }
    }
}

/// Requests that all fall into the open window fill it up to the limit and
/// no further: the counter grows by one per request until it reaches the
/// route's limit, the window stays as it is, and the number admitted is the
/// room that was left.
pub proof fn calls_within_window(s: LimiterView, path: Seq<char>, times: Seq<u64>)
    requires
        s.all_in_window(s.config_for(path).interval, times),
    ensures
        s.checked_all(path, times).reset_time == s.reset_time,
        s.checked_all(path, times).config == s.config,
        s.checked_all(path, times).requests == (if s.requests >= s.config_for(path).max_requests {
            s.requests as int
        } else if s.requests + times.len() <= s.config_for(path).max_requests {
            s.requests + times.len()
        } else {
            s.config_for(path).max_requests as int
        }),
        s.admitted(path, times) == (if s.requests >= s.config_for(path).max_requests {
            0
        } else if s.requests + times.len() <= s.config_for(path).max_requests {
            times.len() as int
        } else {
            s.config_for(path).max_requests - s.requests
        }),
    decreases times.len(),
{
    if times.len() > 0 {
        let earlier = times.drop_last();
        assert forall|i: int| 0 <= i < earlier.len() implies s.window_open(
            #[trigger] earlier[i],
            s.config_for(path).interval,
        ) by {
            assert(earlier[i] == times[i]);
        }
        calls_within_window(s, path, earlier);
        let before = s.checked_all(path, earlier);
        assert(before.config_for(path) == s.config_for(path));
        assert(s.window_open(times[times.len() - 1], s.config_for(path).interval));
    }
}

/// The decision on each request of a run inside the open window: it is
/// admitted exactly if the requests counted before it, those of the window
/// so far and those of the run, are fewer than the route's limit.
pub proof fn decision_within_window(s: LimiterView, path: Seq<char>, times: Seq<u64>, k: int)
    requires
        s.all_in_window(s.config_for(path).interval, times),
        0 <= k < times.len(),
    ensures
        s.checked_all(path, times.take(k)).decision(path, times[k]) == Decision::Admitted <==> s.requests
            + k < s.config_for(path).max_requests,
{
    let earlier = times.take(k);
    assert forall|i: int| 0 <= i < earlier.len() implies s.window_open(
        #[trigger] earlier[i],
        s.config_for(path).interval,
    ) by {
        assert(earlier[i] == times[i]);
    }
    calls_within_window(s, path, earlier);
    let before = s.checked_all(path, earlier);
    assert(before.config_for(path) == s.config_for(path));
    assert(s.window_open(times[k], s.config_for(path).interval));
}

/// A window that has admitted nothing yet admits as many requests as the
/// route's limit says, and turns away the one after them.
pub proof fn limit_admitted_then_rejected(s: LimiterView, path: Seq<char>, times: Seq<u64>)
    requires
        s.requests == 0,
        times.len() == s.config_for(path).max_requests + 1,
        s.all_in_window(s.config_for(path).interval, times),
    ensures
        forall|k: int|
            0 <= k < times.len() - 1 ==> s.checked_all(path, #[trigger] times.take(k)).decision(
                path,
                times[k],
            ) == Decision::Admitted,
        s.checked_all(path, times.drop_last()).decision(path, times.last()) == Decision::Rejected,
        s.admitted(path, times) == s.config_for(path).max_requests,
{
    assert forall|k: int| 0 <= k < times.len() - 1 implies s.checked_all(
        path,
        #[trigger] times.take(k),
    ).decision(path, times[k]) == Decision::Admitted by {
        decision_within_window(s, path, times, k);
    }
    decision_within_window(s, path, times, times.len() - 1);
    assert(times.take(times.len() - 1) == times.drop_last());
    calls_within_window(s, path, times);
}

/// Once the window has run its length, the next request is admitted
/// whatever was counted, and opens a new window in which it is the first.
pub proof fn expired_window_resets(s: LimiterView, path: Seq<char>, now: u64)
    requires
        elapsed(s.reset_time, now) >= s.config_for(path).interval,
    ensures
        s.decision(path, now) == Decision::Admitted,
        s.checked(path, now).requests == 1,
        s.checked(path, now).reset_time == now,
        s.checked(path, now).config == s.config,
{
}

/// The window that a request opens: with the opening request, it admits as
/// many requests as the route's limit says, and turns away the one after
/// them. A limit of zero is left out: the opening request is admitted
/// whatever the limit.
pub proof fn reopened_window_admits_limit(
    s: LimiterView,
    path: Seq<char>,
    opening: u64,
    times: Seq<u64>,
)
    requires
        elapsed(s.reset_time, opening) >= s.config_for(path).interval,
        s.config_for(path).max_requests >= 1,
        times.len() == s.config_for(path).max_requests,
        s.checked(path, opening).all_in_window(s.config_for(path).interval, times),
    ensures
        s.decision(path, opening) == Decision::Admitted,
        forall|k: int|
            0 <= k < times.len() - 1 ==> s.checked(path, opening).checked_all(
                path,
                #[trigger] times.take(k),
            ).decision(path, times[k]) == Decision::Admitted,
        s.checked(path, opening).checked_all(path, times.drop_last()).decision(path, times.last())
            == Decision::Rejected,
{
    let opened = s.checked(path, opening);
    assert(opened.config_for(path) == s.config_for(path));
    assert forall|k: int| 0 <= k < times.len() - 1 implies opened.checked_all(
        path,
        #[trigger] times.take(k),
    ).decision(path, times[k]) == Decision::Admitted by {
        decision_within_window(opened, path, times, k);
    }
    decision_within_window(opened, path, times, times.len() - 1);
    assert(times.take(times.len() - 1) == times.drop_last());
}

/// Of any number of requests judged one after another by a new limiter,
/// all inside its first window, exactly as many are admitted as the limit
/// allows: all of them if they are no more than the limit, else the limit.
pub proof fn serial_checks_admit_exactly_limit(
    created: u64,
    config: RateLimitConfig,
    path: Seq<char>,
    times: Seq<u64>,
)
    requires
        forall|i: int| 0 <= i < times.len() ==> elapsed(created, #[trigger] times[i]) < config.interval,
    ensures
        ({
            let limiter = LimiterView { config: map![path => config], ..LimiterView::fresh(created) };
            limiter.admitted(path, times) == if times.len() <= config.max_requests {
                times.len() as int
            } else {
                config.max_requests as int
            }
        }),
{
    let limiter = LimiterView { config: map![path => config], ..LimiterView::fresh(created) };
    assert(limiter.config_for(path) == config);
    calls_within_window(limiter, path, times);
}

} // verus!
