//! Rate limiting of outgoing requests with a sliding window per method.
//!
//! Times are readings of a monotonic clock in nanoseconds, handed in by the
//! caller.
use vstd::prelude::*;
use crate::interceptor::{InterceptionResult, InterceptorStats, MessageContext, MessageDirection, message_method, is_blocked_placeholder};
use crate::text::{owned, push_str, str_equal, u64_to_decimal, nat_decimal};
use crate::messages::jsonrpc::JsonRpcMessage;

verus! {

/// Nanoseconds in a second.
pub const NANOS_PER_SEC: u64 = 1_000_000_000;

/// Whether a request made at `t` still counts at `now` for a window of
/// `window_secs` seconds: it lies strictly after `now` minus the window.
pub open spec fn in_window(t: u64, now: u64, window_secs: u64) -> bool {
    t + window_secs * 1_000_000_000 > now
}

/// The requests of `h` that still count at `now`.
pub open spec fn window_filter(h: Seq<u64>, now: u64, window_secs: u64) -> Seq<u64> {
    h.filter(|t: u64| in_window(t, now, window_secs))
}

/// The history recorded for `method`: that of the last entry with that
/// name, or none.
pub open spec fn history_lookup(es: Seq<(Seq<char>, Seq<u64>)>, method: Seq<char>) -> Seq<u64>
    decreases es.len(),
{
    if es.len() == 0 {
        Seq::empty()
    } else if es.last().0 == method {
        es.last().1
    } else {
        history_lookup(es.drop_last(), method)
    }
}

/// Rate limiter using a sliding window per method.
#[derive(Debug)]
pub struct RateLimiter {
    /// Max requests per window
    pub max_requests: usize,
    /// Window duration in seconds
    pub window_secs: u64,
    /// Request times per method
    pub history: Vec<(String, Vec<u64>)>,
}

impl RateLimiter {
    /// The recorded histories, as (method, request times) pairs.
    pub closed spec fn entries(self) -> Seq<(Seq<char>, Seq<u64>)> {
        self.history@.map_values(|e: (String, Vec<u64>)| (e.0@, e.1@))
    }

    /// The request times recorded for `method`.
    pub open spec fn history_of(self, method: Seq<char>) -> Seq<u64> {
        history_lookup(self.entries(), method)
    }

    /// No method has more requests recorded than the limit allows.
    pub open spec fn wf(self) -> bool {
        forall|i: int| 0 <= i < self.entries().len() ==> (#[trigger] self.entries()[i]).1.len() <= self.max_requests
    }

    /// Whether no method has more requests recorded than the limit allows.
    pub fn is_wf(&self) -> (r: bool)
        ensures
            r == self.wf(),
    {
        let mut i: usize = 0;
        while i < self.history.len()
            invariant
                i <= self.history@.len(),
                self.entries().len() == self.history@.len(),
                forall|j: int| 0 <= j < i ==> (#[trigger] self.entries()[j]).1.len() <= self.max_requests,
            decreases self.history@.len() - i,
        {
            assert(self.entries()[i as int].1 == self.history@[i as int].1@);
            if self.history[i].1.len() > self.max_requests {
                return false;
            }
            i = i + 1;
        }
        true
    }

    /// How many requests of `method` count at `now`.
    pub open spec fn rate_at(self, method: Seq<char>, now: u64) -> nat {
        window_filter(self.history_of(method), now, self.window_secs).len()
    }

    /// A limiter allowing `max_requests` requests per method in any window
    /// of `window_secs` seconds, with nothing recorded.
    pub fn new(max_requests: usize, window_secs: u64) -> (r: Self)
        ensures
            r.wf(),
            r.max_requests == max_requests,
            r.window_secs == window_secs,
            forall|m: Seq<char>| #[trigger] r.history_of(m) == Seq::<u64>::empty(),
    {
        let r = RateLimiter { max_requests, window_secs, history: Vec::new() };
        proof {
            assert(r.entries() =~= Seq::<(Seq<char>, Seq<u64>)>::empty());
        }
        r
    }

    /// Whether a request made at `t` still counts at `now`.
    fn counts(&self, t: u64, now: u64) -> (r: bool)
        ensures
            r == in_window(t, now, self.window_secs),
    {
        let w = self.window_secs as u128;
        assert(w * 1_000_000_000 <= 0xffff_ffff_ffff_ffffu128 * 1_000_000_000) by (nonlinear_arith)
            requires
                w <= 0xffff_ffff_ffff_ffffu128,
        ;
        (t as u128) + w * (NANOS_PER_SEC as u128) > (now as u128)
    }

    /// The position of the last entry for `method`, if any.
    fn find(&self, method: &str) -> (r: Option<usize>)
        ensures
            match r {
                Some(i) => i < self.entries().len() && self.entries()[i as int].0 == method@
                    && forall|j: int| i < j < self.entries().len() ==> #[trigger] self.entries()[j].0 != method@,
                None => forall|j: int| 0 <= j < self.entries().len() ==> #[trigger] self.entries()[j].0 != method@,
            },
    {
        let mut i: usize = self.history.len();
        while i > 0
            invariant
                i <= self.history@.len(),
                forall|j: int| i <= j < self.entries().len() ==> #[trigger] self.entries()[j].0 != method@,
            decreases i,
        {
            if str_equal(self.history[i - 1].0.as_str(), method) {
                return Some(i - 1);
            }
            i = i - 1;
        }
        None
    }

    /// The requests of `h` that still count at `now`.
    fn kept(&self, h: &Vec<u64>, now: u64) -> (r: Vec<u64>)
        ensures
            r@ == window_filter(h@, now, self.window_secs),
    {
        let ghost pred = |t: u64| in_window(t, now, self.window_secs);
        let mut r: Vec<u64> = Vec::new();
        let mut i: usize = 0;
        proof {
            assert(h@.take(0).filter(pred) =~= Seq::<u64>::empty());
        }
        while i < h.len()
            invariant
                i <= h@.len(),
                r@ == h@.take(i as int).filter(pred),
                pred == (|t: u64| in_window(t, now, self.window_secs)),
            decreases h@.len() - i,
        {
            proof {
                h@.lemma_take_succ_push(i as int);
                h@.take(i as int).lemma_filter_push(h@[i as int], pred);
            }
            if self.counts(h[i], now) {
                r.push(h[i]);
            }
            i = i + 1;
        }
        proof {
            assert(h@.take(h@.len() as int) =~= h@);
        }
        r
    }

    /// Decides whether a request for `method` made at `now` may go: it may
    /// when fewer than `max_requests` earlier requests of that method count
    /// at `now`. Requests that no longer count are forgotten, and an allowed
    /// request is recorded. Other methods are not affected.
    pub fn check_and_record(&mut self, method: &str, now: u64) -> (allowed: bool)
        requires
            old(self).wf(),
        ensures
            final(self).wf(),
            final(self).max_requests == old(self).max_requests,
            final(self).window_secs == old(self).window_secs,
            allowed == (old(self).rate_at(method@, now) < old(self).max_requests),
            final(self).history_of(method@) == if allowed {
                window_filter(old(self).history_of(method@), now, old(self).window_secs).push(now)
            } else {
                window_filter(old(self).history_of(method@), now, old(self).window_secs)
            },
            forall|m: Seq<char>| m != method@ ==> #[trigger] final(self).history_of(m) == old(self).history_of(m),
    {
        let ghost es = self.entries();
        match self.find(method) {
            Some(i) => {
                proof {
                    lemma_lookup_at_last_match(es, method@, i as int);
                }
                let mut h: Vec<u64> = Vec::new();
                std::mem::swap(&mut h, &mut self.history[i].1);
                let ghost old_h = h@;
                let mut k = self.kept(&h, now);
                let allowed = k.len() < self.max_requests;
                if allowed {
                    k.push(now);
                }
                let ghost new_h = k@;
                std::mem::swap(&mut k, &mut self.history[i].1);
                proof {
                    assert(old_h == es[i as int].1);
                    assert(self.entries() =~= es.update(i as int, (method@, new_h)));
                    lemma_lookup_update(es, method@, i as int, new_h);
                    window_filter(old_h, now, self.window_secs).lemma_filter_len(|t: u64| in_window(t, now, self.window_secs));
                    assert forall|j: int| 0 <= j < self.entries().len() implies (#[trigger] self.entries()[j]).1.len() <= self.max_requests by {
                        if j != i {
                            assert(self.entries()[j] == es[j]);
                        }
                    }
                }
                allowed
            },
            None => {
                proof {
                    lemma_lookup_absent(es, method@);
                    assert(window_filter(Seq::<u64>::empty(), now, self.window_secs) =~= Seq::<u64>::empty());
                }
                let allowed = 0 < self.max_requests;
                let mut h: Vec<u64> = Vec::new();
                if allowed {
                    h.push(now);
                }
                let ghost new_h = h@;
                self.history.push((owned(method), h));
                proof {
                    assert(self.entries() =~= es.push((method@, new_h)));
                    assert(self.entries().drop_last() =~= es);
                    assert forall|j: int| 0 <= j < self.entries().len() implies (#[trigger] self.entries()[j]).1.len() <= self.max_requests by {
                        if j < es.len() {
                            assert(self.entries()[j] == es[j]);
                        }
                    }
                }
                allowed
            },
        }
    }

    /// How many requests of `method` count at `now`.
    pub fn get_current_rate(&self, method: &str, now: u64) -> (r: usize)
        requires
            self.wf(),
        ensures
            r == self.rate_at(method@, now),
    {
        match self.find(method) {
            Some(i) => {
                proof {
                    lemma_lookup_at_last_match(self.entries(), method@, i as int);
                }
                let k = self.kept(&self.history[i].1, now);
                k.len()
            },
            None => {
                proof {
                    lemma_lookup_absent(self.entries(), method@);
                    assert(window_filter(Seq::<u64>::empty(), now, self.window_secs) =~= Seq::<u64>::empty());
                }
                0
            },
        }
    }
}

/// The lookup finds the last entry with the name.
proof fn lemma_lookup_at_last_match(es: Seq<(Seq<char>, Seq<u64>)>, m: Seq<char>, i: int)
    requires
        0 <= i < es.len(),
        es[i].0 == m,
        forall|j: int| i < j < es.len() ==> #[trigger] es[j].0 != m,
    ensures
        history_lookup(es, m) == es[i].1,
    decreases es.len(),
{
    if i < es.len() - 1 {
        assert(es.last() == es[es.len() - 1]);
        lemma_lookup_at_last_match(es.drop_last(), m, i);
    }
}

/// A name with no entry has no history.
proof fn lemma_lookup_absent(es: Seq<(Seq<char>, Seq<u64>)>, m: Seq<char>)
    requires
        forall|j: int| 0 <= j < es.len() ==> #[trigger] es[j].0 != m,
    ensures
        history_lookup(es, m) == Seq::<u64>::empty(),
    decreases es.len(),
{
    if es.len() > 0 {
        assert(es.last() == es[es.len() - 1]);
        lemma_lookup_absent(es.drop_last(), m);
    }
}

/// Replacing the history of the last entry for `m` changes the lookup for
/// `m` only.
proof fn lemma_lookup_update(es: Seq<(Seq<char>, Seq<u64>)>, m: Seq<char>, i: int, h: Seq<u64>)
    requires
        0 <= i < es.len(),
        es[i].0 == m,
        forall|j: int| i < j < es.len() ==> #[trigger] es[j].0 != m,
    ensures
        history_lookup(es.update(i, (m, h)), m) == h,
        forall|m2: Seq<char>| m2 != m ==> #[trigger] history_lookup(es.update(i, (m, h)), m2) == history_lookup(es, m2),
    decreases es.len(),
{
    let u = es.update(i, (m, h));
    if i == es.len() - 1 {
        assert(u.drop_last() =~= es.drop_last());
        assert(u.last() == (m, h));
        assert(es.last().0 == m);
        assert forall|m2: Seq<char>| m2 != m implies #[trigger] history_lookup(u, m2) == history_lookup(es, m2) by {
        }
    } else {
        assert(u.drop_last() =~= es.drop_last().update(i, (m, h)));
        assert(u.last() == es.last());
        assert(es.last() == es[es.len() - 1]);
        lemma_lookup_update(es.drop_last(), m, i, h);
        assert forall|m2: Seq<char>| m2 != m implies #[trigger] history_lookup(u, m2) == history_lookup(es, m2) by {
            assert(history_lookup(u.drop_last(), m2) == history_lookup(es.drop_last(), m2));
        }
    }
}

/// The limit holds at every moment: for a limiter in its invariant, no
/// method has more than `max_requests` requests counting at any time.
pub proof fn lemma_rate_within_limit(l: RateLimiter, method: Seq<char>, now: u64)
    requires
        l.wf(),
    ensures
        l.rate_at(method, now) <= l.max_requests,
{
    lemma_lookup_bounded(l.entries(), method, l.max_requests as nat);
    l.history_of(method).lemma_filter_len(|t: u64| in_window(t, now, l.window_secs));
}

/// A looked-up history is one of the recorded ones, so it respects their
/// common bound.
proof fn lemma_lookup_bounded(es: Seq<(Seq<char>, Seq<u64>)>, m: Seq<char>, bound: nat)
    requires
        forall|i: int| 0 <= i < es.len() ==> (#[trigger] es[i]).1.len() <= bound,
    ensures
        history_lookup(es, m).len() <= bound,
    decreases es.len(),
{
    if es.len() > 0 {
        assert(es.last() == es[es.len() - 1]);
        lemma_lookup_bounded(es.drop_last(), m, bound);
    }
}

/// The method that a message is limited under: its own, or "unknown".
pub open spec fn limited_method(message: JsonRpcMessage) -> Seq<char> {
    match message_method(message) {
        Some(x) => x,
        None => "unknown"@,
    }
}

/// What the rate-limit interceptor does with `message` at `now`: lets it
/// through, recording it, when its method is under the limit, and blocks
/// it otherwise, naming the method and its current rate; requests that no
/// longer count are forgotten; and it is counted.
pub open spec fn rate_limit_answer(before: RateLimitInterceptor, message: JsonRpcMessage, now: u64, r: InterceptionResult, after: RateLimitInterceptor) -> bool {
    let m = limited_method(message);
    let allowed = before.limiter.rate_at(m, now) < before.limiter.max_requests;
    &&& after.limiter.wf()
    &&& after.limiter.max_requests == before.limiter.max_requests
    &&& after.limiter.window_secs == before.limiter.window_secs
    &&& after.limiter.history_of(m) == if allowed {
        window_filter(before.limiter.history_of(m), now, before.limiter.window_secs).push(now)
    } else {
        window_filter(before.limiter.history_of(m), now, before.limiter.window_secs)
    }
    &&& forall|k: Seq<char>| k != m ==> #[trigger] after.limiter.history_of(k) == before.limiter.history_of(k)
    &&& allowed ==> !r.block && !r.modified && r.message == message && r.reasoning is None
    &&& !allowed ==> r.block && !r.modified && is_blocked_placeholder(r.message)
        && (r.reasoning matches Some(t) && t@ == rate_limit_reason(m, after.limiter.rate_at(m, now)))
    &&& after.stats.total_intercepted == before.stats.total_intercepted + 1
    &&& after.stats.total_modified == before.stats.total_modified
    &&& after.stats.total_blocked == before.stats.total_blocked + if allowed { 0int } else { 1int }
}

/// A request keeps counting for the whole window: if a request of
/// `method` was recorded at `t`, then at every time from `t` until
/// `window_secs` seconds (in nanoseconds) later the method's rate is at
/// least one.
pub proof fn lemma_recent_request_counts(l: RateLimiter, method: Seq<char>, t: u64, now: u64)
    requires
        l.history_of(method).contains(t),
        t <= now,
        now - t < l.window_secs * 1_000_000_000,
    ensures
        l.rate_at(method, now) >= 1,
{
    let h = l.history_of(method);
    let pred = |x: u64| in_window(x, now, l.window_secs);
    let i = choose|i: int| 0 <= i < h.len() && h[i] == t;
    h.lemma_filter_contains(pred, i);
    assert(h.filter(pred).contains(t));
}

/// A request stops counting once the window has passed: if every request
/// of `method` was recorded `window_secs` seconds or more before `now`,
/// the method's rate at `now` is zero.
pub proof fn lemma_old_requests_forgotten(l: RateLimiter, method: Seq<char>, now: u64)
    requires
        forall|i: int| 0 <= i < l.history_of(method).len()
            ==> #[trigger] l.history_of(method)[i] + l.window_secs * 1_000_000_000 <= now,
    ensures
        l.rate_at(method, now) == 0,
{
    let h = l.history_of(method);
    let pred = |x: u64| in_window(x, now, l.window_secs);
    let f = h.filter(pred);
    if f.len() > 0 {
        h.lemma_filter_pred(pred, 0);
        assert(f.contains(f[0]));
        h.lemma_filter_contains_rev(pred, f[0]);
        let i = choose|i: int| 0 <= i < h.len() && h[i] == f[0];
        assert(h[i] + l.window_secs * 1_000_000_000 <= now);
    }
}

/// With a limit of `max_requests` in the window, a method whose recorded
/// requests all lie inside the window at `now`, and that has as many as
/// the limit, is refused: its rate has reached the limit.
pub proof fn lemma_full_window_refuses(l: RateLimiter, method: Seq<char>, now: u64)
    requires
        l.history_of(method).len() >= l.max_requests,
        forall|i: int| 0 <= i < l.history_of(method).len() ==> #[trigger] l.history_of(method)[i] <= now
            && now - l.history_of(method)[i] < l.window_secs * 1_000_000_000,
    ensures
        l.rate_at(method, now) >= l.max_requests,
{
    let h = l.history_of(method);
    let pred = |x: u64| in_window(x, now, l.window_secs);
    assert(h.filter(pred) =~= h) by {
        assert forall|i: int| 0 <= i < h.len() implies pred(#[trigger] h[i]) by {}
        lemma_filter_all(h, pred);
    }
}

/// With one request allowed per window: once a request is recorded at `t`
/// (as `check_and_record` records an allowed one), every further request
/// of the same method before the window has passed is refused.
pub proof fn lemma_one_per_window(l: RateLimiter, method: Seq<char>, t: u64, now: u64)
    requires
        l.max_requests == 1,
        l.history_of(method).contains(t),
        t <= now,
        now - t < l.window_secs * 1_000_000_000,
    ensures
        !(l.rate_at(method, now) < l.max_requests),
{
    lemma_recent_request_counts(l, method, t, now);
}

/// Filtering by a predicate that every element satisfies keeps them all.
proof fn lemma_filter_all(h: Seq<u64>, pred: spec_fn(u64) -> bool)
    requires
        forall|i: int| 0 <= i < h.len() ==> pred(#[trigger] h[i]),
    ensures
        h.filter(pred) == h,
    decreases h.len(),
{
    reveal(Seq::filter);
    if h.len() > 0 {
        lemma_filter_all(h.drop_last(), pred);
        assert(h.drop_last().push(h.last()) =~= h);
    }
}

/// Interceptor that rate-limits outgoing MCP requests.
#[derive(Debug)]
pub struct RateLimitInterceptor {
    /// The per-method sliding windows
    pub limiter: RateLimiter,
    /// What this interceptor has seen so far
    pub stats: InterceptorStats,
}

/// The reason given for a request over the limit.
pub open spec fn rate_limit_reason(method: Seq<char>, rate: nat) -> Seq<char> {
    "Rate limit exceeded for method '"@ + method + "' ("@ + nat_decimal(rate) + "/window)"@
}

impl RateLimitInterceptor {
    /// An interceptor allowing `max_requests` requests per method in any
    /// window of `window_secs` seconds.
    pub fn new(max_requests: usize, window_secs: u64) -> (r: Self)
        ensures
            r.limiter.wf(),
            r.limiter.max_requests == max_requests,
            r.limiter.window_secs == window_secs,
            forall|m: Seq<char>| #[trigger] r.limiter.history_of(m) == Seq::<u64>::empty(),
            r.stats == (InterceptorStats { total_intercepted: 0, total_modified: 0, total_blocked: 0 }),
    {
        RateLimitInterceptor { limiter: RateLimiter::new(max_requests, window_secs), stats: InterceptorStats::zero() }
    }

    /// 100 requests a minute.
    pub fn permissive() -> (r: Self)
        ensures
            r.limiter.wf(),
            r.limiter.max_requests == 100,
            r.limiter.window_secs == 60,
    {
        Self::new(100, 60)
    }

    /// 30 requests a minute.
    pub fn moderate() -> (r: Self)
        ensures
            r.limiter.wf(),
            r.limiter.max_requests == 30,
            r.limiter.window_secs == 60,
    {
        Self::new(30, 60)
    }

    /// 10 requests a minute.
    pub fn strict() -> (r: Self)
        ensures
            r.limiter.wf(),
            r.limiter.max_requests == 10,
            r.limiter.window_secs == 60,
    {
        Self::new(10, 60)
    }

    /// The interceptor's name.
    pub fn name(&self) -> (r: &'static str)
        ensures
            r@ == "RateLimitInterceptor"@,
    {
        "RateLimitInterceptor"
    }

    /// Runs early, to block before expensive work.
    pub fn priority(&self) -> (r: u32)
        ensures
            r == 30,
    {
        30
    }

    /// Only outgoing requests and notifications are limited.
    pub fn should_intercept(&self, context: &MessageContext) -> (r: bool)
        ensures
            r == (context.direction == MessageDirection::Outgoing && message_method(context.message) is Some),
    {
        context.direction == MessageDirection::Outgoing && context.method().is_some()
    }

    /// Lets the message through if its method is under the limit at `now`,
    /// recording it; otherwise blocks it, naming the method and its current
    /// rate. A message without a method counts under "unknown".
    pub fn intercept(&mut self, context: MessageContext, now: u64) -> (r: InterceptionResult)
        requires
            old(self).limiter.wf(),
            old(self).stats.total_intercepted < u64::MAX,
            old(self).stats.total_modified < u64::MAX,
            old(self).stats.total_blocked < u64::MAX,
        ensures
            final(self).limiter.wf(),
            ({
                let m = match message_method(context.message) {
                    Some(x) => x,
                    None => "unknown"@,
                };
                let allowed = old(self).limiter.rate_at(m, now) < old(self).limiter.max_requests;
                &&& allowed ==> !r.block && !r.modified && r.message == context.message && r.reasoning is None
                &&& !allowed ==> r.block && is_blocked_placeholder(r.message)
                    && (r.reasoning matches Some(t) && t@ == rate_limit_reason(m, final(self).limiter.rate_at(m, now)))
                &&& final(self).stats.total_blocked == old(self).stats.total_blocked + if allowed { 0int } else { 1int }
            }),
            final(self).stats.total_intercepted == old(self).stats.total_intercepted + 1,
            final(self).stats.total_modified == old(self).stats.total_modified,
            rate_limit_answer(*old(self), context.message, now, r, *final(self)),
    {
        let method: String = match context.method() {
            Some(m) => owned(m),
            None => owned("unknown"),
        };
        let allowed = self.limiter.check_and_record(method.as_str(), now);
        let rate = self.limiter.get_current_rate(method.as_str(), now);
        if allowed {
            self.stats = self.stats.record(false, false);
            InterceptionResult::pass_through(context.message)
        } else {
            self.stats = self.stats.record(false, true);
            let mut reason = owned("Rate limit exceeded for method '");
            push_str(&mut reason, method.as_str());
            push_str(&mut reason, "' (");
            let digits = u64_to_decimal(rate as u64);
            push_str(&mut reason, digits.as_str());
            push_str(&mut reason, "/window)");
            InterceptionResult::blocked(reason)
        }
    }
}

} // verus!
