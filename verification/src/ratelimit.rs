//! A provider's request budget, enforced over sliding windows of one second
//! and one minute.
use vstd::prelude::*;
use std::collections::VecDeque;
use crate::provider::RateLimitConfig;

verus! {

/// A point in monotonic time (`std::time::Instant`).
#[verifier::external_type_specification]
#[verifier::external_body]
pub struct ExInstant(std::time::Instant);

/// The current monotonic time (`std::time::Instant::now`); nothing is
/// promised of it.
#[verifier::external_body]
fn instant_now() -> (r: std::time::Instant) {
    std::time::Instant::now()
}

/// Nanoseconds elapsed since `origin` (`Instant::elapsed`, then
/// `Duration::as_nanos`, narrowed to `u64`). It depends on the clock, so
/// nothing is promised of it.
#[verifier::external_body]
fn elapsed_nanos(origin: &std::time::Instant) -> (r: u64) {
    origin.elapsed().as_nanos() as u64
}

/// One second, in nanoseconds.
pub const SECOND_NANOS: u64 = 1_000_000_000;

/// One minute, in nanoseconds.
pub const MINUTE_NANOS: u64 = 60_000_000_000;

/// Time from `t` to `now`, zero when `t` is later (`Instant::duration_since`).
pub open spec fn since(now: u64, t: u64) -> int {
    if now >= t {
        now - t
    } else {
        0
    }
}

/// The window's history without its oldest entries that lie more than
/// `window` before `now` (it stops at the first recent one).
pub open spec fn prune(h: Seq<u64>, now: u64, window: u64) -> Seq<u64>
    decreases h.len(),
{
    if h.len() > 0 && since(now, h[0]) > window {
        prune(h.drop_first(), now, window)
    } else {
        h
    }
}

/// Time from `t` to `now`, zero when `t` is later.
fn gap(now: u64, t: u64) -> (r: u64)
    ensures
        r == since(now, t),
{
    if now >= t {
        now - t
    } else {
        0
    }
}

/// Pruning never adds entries.
pub proof fn lemma_prune_len(h: Seq<u64>, now: u64, window: u64)
    ensures
        prune(h, now, window).len() <= h.len(),
    decreases h.len(),
{
    if h.len() > 0 && since(now, h[0]) > window {
        lemma_prune_len(h.drop_first(), now, window);
    }
}

/// Times within `window` of `now` (or later than it).
pub open spec fn recent(now: u64, window: u64) -> spec_fn(u64) -> bool {
    |x: u64| since(now, x) <= window
}

/// Times in nondecreasing order.
pub open spec fn nondecreasing(s: Seq<u64>) -> bool {
    forall|i: int, j: int| 0 <= i <= j < s.len() ==> s[i] <= s[j]
}

/// One request at `now` on the windows `sec` and `min`, as `check_at`
/// decides it: whether it passes, and the windows after it.
pub open spec fn limit_step(c: RateLimitConfig, sec: Seq<u64>, min: Seq<u64>, now: u64) -> (bool, Seq<u64>, Seq<u64>) {
    let ps = prune(sec, now, SECOND_NANOS);
    let pm = prune(min, now, MINUTE_NANOS);
    let ok = ps.len() < c.requests_per_second && pm.len() < c.requests_per_minute;
    if ok {
        (ok, ps.push(now), pm.push(now))
    } else {
        (ok, ps, pm)
    }
}

/// Requests at the times `nows`, in order, on a new limiter: the times of
/// those let through, and the two windows after the last.
pub open spec fn limit_run(c: RateLimitConfig, nows: Seq<u64>) -> (Seq<u64>, Seq<u64>, Seq<u64>)
    decreases nows.len(),
{
    if nows.len() == 0 {
        (Seq::empty(), Seq::empty(), Seq::empty())
    } else {
        let prev = limit_run(c, nows.drop_last());
        let st = limit_step(c, prev.1, prev.2, nows.last());
        (
            if st.0 {
                prev.0.push(nows.last())
            } else {
                prev.0
            },
            st.1,
            st.2,
        )
    }
}

/// Filtering by a predicate every item meets keeps everything.
proof fn lemma_filter_all(h: Seq<u64>, p: spec_fn(u64) -> bool)
    requires
        forall|i: int| 0 <= i < h.len() ==> p(#[trigger] h[i]),
    ensures
        h.filter(p) == h,
    decreases h.len(),
{
    reveal(Seq::filter);
    if h.len() > 0 {
        lemma_filter_all(h.drop_last(), p);
        assert(h.drop_last().push(h.last()) =~= h);
    }
}

/// Filtering twice, where the second predicate implies the first on every
/// item, is filtering by the second.
proof fn lemma_filter_twice_implied(h: Seq<u64>, p: spec_fn(u64) -> bool, q: spec_fn(u64) -> bool)
    requires
        forall|i: int| 0 <= i < h.len() && q(#[trigger] h[i]) ==> p(h[i]),
    ensures
        h.filter(p).filter(q) == h.filter(q),
    decreases h.len(),
{
    reveal(Seq::filter);
    if h.len() > 0 {
        let d = h.drop_last();
        lemma_filter_twice_implied(d, p, q);
        if p(h.last()) {
            let x = d.filter(p).push(h.last());
            assert(x.drop_last() =~= d.filter(p));
            assert(x.last() == h.last());
        } else {
            assert(!q(h[h.len() - 1]));
        }
    }
}

/// On times in order, none later than `now`, pruning keeps exactly the
/// recent ones.
proof fn lemma_prune_recent(h: Seq<u64>, now: u64, w: u64)
    requires
        nondecreasing(h),
        forall|i: int| 0 <= i < h.len() ==> #[trigger] h[i] <= now,
    ensures
        prune(h, now, w) == h.filter(recent(now, w)),
    decreases h.len(),
{
    reveal(Seq::filter);
    if h.len() == 0 {
    } else if since(now, h[0]) > w {
        let t = h.drop_first();
        assert forall|i: int| 0 <= i < t.len() implies #[trigger] t[i] <= now by {
            assert(t[i] == h[i + 1]);
        }
        assert(nondecreasing(t)) by {
            assert forall|i: int, j: int| 0 <= i <= j < t.len() implies t[i] <= t[j] by {
                assert(t[i] == h[i + 1] && t[j] == h[j + 1]);
            }
        }
        lemma_prune_recent(t, now, w);
        assert(h =~= seq![h[0]] + t);
        Seq::filter_distributes_over_add(seq![h[0]], t, recent(now, w));
        assert(seq![h[0]].drop_last() =~= Seq::<u64>::empty());
        assert(Seq::<u64>::empty().filter(recent(now, w)) =~= Seq::<u64>::empty());
        assert(seq![h[0]].last() == h[0]);
        assert(!recent(now, w)(h[0]));
        assert(seq![h[0]].filter(recent(now, w)) =~= Seq::<u64>::empty());
    } else {
        assert forall|i: int| 0 <= i < h.len() implies recent(now, w)(#[trigger] h[i]) by {
            assert(h[0] <= h[i]);
        }
        lemma_filter_all(h, recent(now, w));
    }
}

/// What a run of requests at times in order keeps: the times let through
/// are in order and none is later than the last request, and each window
/// holds exactly those of them within its span of the last request.
proof fn lemma_run_windows(c: RateLimitConfig, nows: Seq<u64>)
    requires
        nondecreasing(nows),
    ensures
        ({
            let (h, sec, min) = limit_run(c, nows);
            &&& nondecreasing(h)
            &&& nows.len() > 0 ==> forall|i: int| 0 <= i < h.len() ==> #[trigger] h[i] <= nows.last()
            &&& nows.len() == 0 ==> h.len() == 0 && sec.len() == 0 && min.len() == 0
            &&& nows.len() > 0 ==> sec == h.filter(recent(nows.last(), SECOND_NANOS)) && min == h.filter(
                recent(nows.last(), MINUTE_NANOS),
            )
        }),
    decreases nows.len(),
{
    reveal(Seq::filter);
    if nows.len() > 0 {
        let d = nows.drop_last();
        let now = nows.last();
        assert(nondecreasing(d)) by {
            assert forall|i: int, j: int| 0 <= i <= j < d.len() implies d[i] <= d[j] by {
                assert(d[i] == nows[i] && d[j] == nows[j]);
            }
        }
        lemma_run_windows(c, d);
        let (h, sec, min) = limit_run(c, d);
        assert forall|i: int| 0 <= i < h.len() implies #[trigger] h[i] <= now by {
            if d.len() > 0 {
                assert(d.last() <= now);
            }
        }
        lemma_window_recent(h, sec, d, now, SECOND_NANOS);
        lemma_window_recent(h, min, d, now, MINUTE_NANOS);
        let st = limit_step(c, sec, min, now);
        if st.0 {
            let h2 = h.push(now);
            assert(h2.drop_last() =~= h);
            assert(h2.last() == now);
            assert(recent(now, SECOND_NANOS)(now));
            assert(recent(now, MINUTE_NANOS)(now));
            assert(nondecreasing(h2)) by {
                assert forall|i: int, j: int| 0 <= i <= j < h2.len() implies h2[i] <= h2[j] by {
                    if j < h.len() {
                        assert(h2[i] == h[i] && h2[j] == h[j]);
                    } else if i < h.len() {
                        assert(h2[i] == h[i]);
                    }
                }
            }
        }
    }
}

/// A window of recent times, pruned at a later request, holds exactly the
/// times let through within its span of that request.
proof fn lemma_window_recent(h: Seq<u64>, win: Seq<u64>, d: Seq<u64>, now: u64, w: u64)
    requires
        nondecreasing(h),
        forall|i: int| 0 <= i < h.len() ==> #[trigger] h[i] <= now,
        d.len() == 0 ==> h.len() == 0 && win.len() == 0,
        d.len() > 0 ==> win == h.filter(recent(d.last(), w)) && d.last() <= now && forall|i: int|
            0 <= i < h.len() ==> #[trigger] h[i] <= d.last(),
    ensures
        prune(win, now, w) == h.filter(recent(now, w)),
{
    reveal(Seq::filter);
    if d.len() == 0 {
        assert(h =~= Seq::<u64>::empty());
    } else {
        let p = recent(d.last(), w);
        let q = recent(now, w);
        h.lemma_filter_len(p);
        lemma_filter_sorted(h, p);
        assert forall|i: int| 0 <= i < win.len() implies #[trigger] win[i] <= now by {
            assert(win.contains(win[i]));
            assert(h.contains(win[i]));
            let k = choose|k: int| 0 <= k < h.len() && h[k] == win[i];
            assert(h[k] <= now);
        }
        lemma_prune_recent(win, now, w);
        assert forall|i: int| 0 <= i < h.len() && q(#[trigger] h[i]) implies p(h[i]) by {
            assert(h[i] <= d.last());
        }
        lemma_filter_twice_implied(h, p, q);
    }
}

/// Filtering keeps times in order.
proof fn lemma_filter_sorted(h: Seq<u64>, p: spec_fn(u64) -> bool)
    requires
        nondecreasing(h),
    ensures
        nondecreasing(h.filter(p)),
        forall|x: u64| h.filter(p).contains(x) ==> h.contains(x),
    decreases h.len(),
{
    reveal(Seq::filter);
    if h.len() > 0 {
        let d = h.drop_last();
        assert(nondecreasing(d)) by {
            assert forall|i: int, j: int| 0 <= i <= j < d.len() implies d[i] <= d[j] by {
                assert(d[i] == h[i] && d[j] == h[j]);
            }
        }
        lemma_filter_sorted(d, p);
        let f = d.filter(p);
        if p(h.last()) {
            let g = f.push(h.last());
            assert forall|i: int, j: int| 0 <= i <= j < g.len() implies g[i] <= g[j] by {
                if j == f.len() && i < f.len() {
                    assert(f.contains(f[i]));
                    assert(d.contains(f[i]));
                    let k = choose|k: int| 0 <= k < d.len() && d[k] == f[i];
                    assert(h[k] == d[k]);
                    assert(h[k] <= h[h.len() - 1]);
                } else if j < f.len() {
                }
            }
            assert forall|x: u64| g.contains(x) implies h.contains(x) by {
                let k = choose|k: int| 0 <= k < g.len() && g[k] == x;
                if k < f.len() {
                    assert(f.contains(f[k]));
                    assert(d.contains(f[k]));
                    let m = choose|m: int| 0 <= m < d.len() && d[m] == f[k];
                    assert(h[m] == x);
                } else {
                    assert(h[h.len() - 1] == x);
                }
            }
        } else {
            assert forall|x: u64| f.contains(x) implies h.contains(x) by {
                assert(d.contains(x));
                let m = choose|m: int| 0 <= m < d.len() && d[m] == x;
                assert(h[m] == d[m]);
            }
        }
    }
}

/// The limiter's rule over the whole history of requests: on a new limiter
/// asked at times in order, a request no earlier than the last passes
/// exactly when fewer than the per-second budget of the requests let
/// through lie within a second of it and fewer than the per-minute budget
/// within a minute; when it passes it is recorded, when refused nothing is.
pub proof fn lemma_limit_history(c: RateLimitConfig, nows: Seq<u64>, now: u64)
    requires
        nondecreasing(nows),
        nows.len() > 0 ==> nows.last() <= now,
    ensures
        ({
            let (h, sec, min) = limit_run(c, nows);
            let (h2, sec2, min2) = limit_run(c, nows.push(now));
            &&& limit_step(c, sec, min, now).0 == (h.filter(recent(now, SECOND_NANOS)).len()
                < c.requests_per_second && h.filter(recent(now, MINUTE_NANOS)).len() < c.requests_per_minute)
            &&& h2 == if limit_step(c, sec, min, now).0 {
                h.push(now)
            } else {
                h
            }
        }),
{
    lemma_run_windows(c, nows);
    let (h, sec, min) = limit_run(c, nows);
    assert forall|i: int| 0 <= i < h.len() implies #[trigger] h[i] <= now by {
        if nows.len() > 0 {
            assert(nows.last() <= now);
        }
    }
    lemma_window_recent(h, sec, nows, now, SECOND_NANOS);
    lemma_window_recent(h, min, nows, now, MINUTE_NANOS);
    assert(nows.push(now).drop_last() =~= nows);
}

/// Limits requests per second and per minute by the times of the requests it
/// let through.
pub struct RateLimiter {
    config: RateLimitConfig,
    origin: std::time::Instant,
    history_sec: VecDeque<u64>,
    history_min: VecDeque<u64>,
    /// The latest time a request was made at.
    last_now: u64,
    /// The times requests were made at, in order.
    requests: Ghost<Seq<u64>>,
}

impl RateLimiter {
    /// Neither window ever holds more requests than its budget.
    #[verifier::type_invariant]
    spec fn within_budget(self) -> bool {
        &&& self.history_sec@.len() <= self.config.requests_per_second
        &&& self.history_min@.len() <= self.config.requests_per_minute
        &&& self.requests@.len() > 0 ==> self.requests@.last() <= self.last_now
    }

    /// The times requests were made at, in order.
    pub closed spec fn requests(&self) -> Seq<u64> {
        self.requests@
    }

    /// The windows are those that the requests made so far leave
    /// (see `limit_run`).
    pub closed spec fn consistent(&self) -> bool {
        &&& self.history_sec@ == limit_run(self.config, self.requests@).1
        &&& self.history_min@ == limit_run(self.config, self.requests@).2
    }

    /// The budgets enforced.
    pub closed spec fn limits(&self) -> RateLimitConfig {
        self.config
    }

    /// Times of the requests let through that the one-second window still holds.
    pub closed spec fn second_window(&self) -> Seq<u64> {
        self.history_sec@
    }

    /// Times of the requests let through that the one-minute window still holds.
    pub closed spec fn minute_window(&self) -> Seq<u64> {
        self.history_min@
    }

    /// A limiter with empty windows.
    pub fn new(config: RateLimitConfig) -> (r: RateLimiter)
        ensures
            r.limits() == config,
            r.second_window() == Seq::<u64>::empty(),
            r.minute_window() == Seq::<u64>::empty(),
            r.requests() == Seq::<u64>::empty(),
            r.consistent(),
    {
        RateLimiter {
            config,
            origin: instant_now(),
            history_sec: VecDeque::new(),
            history_min: VecDeque::new(),
            last_now: 0,
            requests: Ghost(Seq::empty()),
        }
    }

    /// Decides a request made at `now` (nanoseconds on the limiter's clock):
    /// both windows first drop what is older than their span; the request
    /// passes when both still have room, and is then recorded in both.
    pub fn check_at(&mut self, now: u64) -> (r: bool)
        ensures
            ({
                let ps = prune(old(self).second_window(), now, SECOND_NANOS);
                let pm = prune(old(self).minute_window(), now, MINUTE_NANOS);
                &&& r == (ps.len() < old(self).limits().requests_per_second && pm.len() < old(
                    self,
                ).limits().requests_per_minute)
                &&& final(self).second_window() == if r {
                    ps.push(now)
                } else {
                    ps
                }
                &&& final(self).minute_window() == if r {
                    pm.push(now)
                } else {
                    pm
                }
            }),
            (r, final(self).second_window(), final(self).minute_window()) == limit_step(
                old(self).limits(),
                old(self).second_window(),
                old(self).minute_window(),
                now,
            ),
            final(self).limits() == old(self).limits(),
            final(self).second_window().len() <= final(self).limits().requests_per_second,
            final(self).minute_window().len() <= final(self).limits().requests_per_minute,
            final(self).requests() == old(self).requests().push(now),
            old(self).consistent() ==> final(self).consistent(),
    {
        proof {
            use_type_invariant(&*self);
        }
        let mut sec: VecDeque<u64> = VecDeque::new();
        let mut min: VecDeque<u64> = VecDeque::new();
        std::mem::swap(&mut sec, &mut self.history_sec);
        std::mem::swap(&mut min, &mut self.history_min);
        let ghost sec0 = sec@;
        let ghost min0 = min@;
        while sec.len() > 0 && gap(now, sec[0]) > SECOND_NANOS
            invariant
                prune(sec@, now, SECOND_NANOS) == prune(sec0, now, SECOND_NANOS),
                sec@.len() <= sec0.len(),
            decreases sec@.len(),
        {
            sec.pop_front();
        }
        while min.len() > 0 && gap(now, min[0]) > MINUTE_NANOS
            invariant
                prune(min@, now, MINUTE_NANOS) == prune(min0, now, MINUTE_NANOS),
                min@.len() <= min0.len(),
            decreases min@.len(),
        {
            min.pop_front();
        }
        let rps = self.config.requests_per_second as usize;
        let rpm = self.config.requests_per_minute as usize;
        let allowed = sec.len() < rps && min.len() < rpm;
        if allowed {
            sec.push_back(now);
            min.push_back(now);
        }
        self.history_sec = sec;
        self.history_min = min;
        if now > self.last_now {
            self.last_now = now;
        }
        let ghost reqs = self.requests@;
        self.requests = Ghost(reqs.push(now));
        proof {
            assert(self.requests@.drop_last() =~= reqs);
        }
        allowed
    }

    /// Decides a request made now: the time is read from the limiter's
    /// monotonic clock (held at the latest request's time, should a reading
    /// ever fall before it), and the decision is `check_at`'s for that time.
    /// On a limiter whose windows are those its requests leave, the request
    /// passes exactly when fewer than each budget of the requests let
    /// through lie within that window's span of it (see
    /// `lemma_limit_history`).
    pub fn check(&mut self) -> (r: bool)
        ensures
            exists|now: u64|
                #![trigger prune(old(self).second_window(), now, SECOND_NANOS)]
                {
                    let ps = prune(old(self).second_window(), now, SECOND_NANOS);
                    let pm = prune(old(self).minute_window(), now, MINUTE_NANOS);
                    &&& r == (ps.len() < old(self).limits().requests_per_second && pm.len() < old(
                        self,
                    ).limits().requests_per_minute)
                    &&& final(self).second_window() == if r {
                        ps.push(now)
                    } else {
                        ps
                    }
                    &&& final(self).minute_window() == if r {
                        pm.push(now)
                    } else {
                        pm
                    }
                },
            exists|now: u64|
                #![trigger old(self).requests().push(now)]
                {
                    &&& final(self).requests() == old(self).requests().push(now)
                    &&& old(self).requests().len() > 0 ==> old(self).requests().last() <= now
                    &&& old(self).consistent() ==> final(self).consistent()
                    &&& old(self).consistent() && nondecreasing(old(self).requests()) ==> {
                        let h = limit_run(old(self).limits(), old(self).requests()).0;
                        &&& nondecreasing(final(self).requests())
                        &&& r == (h.filter(recent(now, SECOND_NANOS)).len() < old(self).limits().requests_per_second
                            && h.filter(recent(now, MINUTE_NANOS)).len() < old(self).limits().requests_per_minute)
                    }
                },
            final(self).limits() == old(self).limits(),
            r ==> final(self).second_window().len() >= 1 && final(self).minute_window().len() >= 1,
            final(self).second_window().len() <= final(self).limits().requests_per_second,
            final(self).minute_window().len() <= final(self).limits().requests_per_minute,
    {
        proof {
            use_type_invariant(&*self);
        }
        let read = elapsed_nanos(&self.origin);
        let now = if read < self.last_now {
            self.last_now
        } else {
            read
        };
        let ghost reqs = self.requests@;
        let r = self.check_at(now);
        proof {
            lemma_prune_len(old(self).second_window(), now, SECOND_NANOS);
            if old(self).consistent() && nondecreasing(reqs) {
                lemma_limit_history(old(self).limits(), reqs, now);
                let n2 = reqs.push(now);
                assert forall|i: int, j: int| 0 <= i <= j < n2.len() implies n2[i] <= n2[j] by {
                    if j == reqs.len() && i < j {
                        assert(reqs[i] <= reqs[reqs.len() - 1]);
                    } else if j < reqs.len() {
                        assert(n2[i] == reqs[i] && n2[j] == reqs[j]);
                    }
                }
            }
        }
        r
    }
}

} // verus!
