//! A fixed-window request limit kept separately for each manager.
use vstd::prelude::*;

use std::time::{Duration, Instant};

use crate::clock::{duration_nanos, instant_now, nanos_between};
use crate::keyed::StrMap;

verus! {

/// One manager's window: how many requests it made since the window began,
/// and whether the window is over.
pub open spec fn window_step(count: u32, window_over: bool, max_requests: u32) -> (u32, bool) {
    let c = if window_over { 0 } else { count };
    if c < max_requests { ((c + 1) as u32, true) } else { (c, false) }
}

/// Decides one request in a window: a window that is over starts again at
/// zero; the request is allowed while fewer than `max_requests` were made.
/// Returns the new count and the decision.
pub fn decide_request(count: u32, window_over: bool, max_requests: u32) -> (r: (u32, bool))
    ensures
        r == window_step(count, window_over, max_requests),
        r.1 ==> r.0 <= max_requests,
{
    let c = if window_over { 0 } else { count };
    if c < max_requests {
        (c + 1, true)
    } else {
        (c, false)
    }
}

/// Limits each manager to `max_requests` per `window`.
pub struct PerManagerRateLimiter {
    pub max_requests: u32,
    pub window: Duration,
    buckets: StrMap<(u32, Instant)>,
}

impl PerManagerRateLimiter {
    pub closed spec fn wf(&self) -> bool {
        self.buckets.wf()
    }

    /// The allowed number of requests per window.
    pub closed spec fn limit(&self) -> u32 {
        self.max_requests
    }

    /// Each manager's request count in its current window.
    pub closed spec fn counts(&self) -> Map<Seq<char>, u32> {
        self.buckets.map().map_values(|b: (u32, Instant)| b.0)
    }

    /// When each manager's current window began.
    pub closed spec fn starts(&self) -> Map<Seq<char>, Instant> {
        self.buckets.map().map_values(|b: (u32, Instant)| b.1)
    }

    /// No manager has made a request.
    pub fn new(max_requests: u32, window: Duration) -> (l: Self)
        ensures
            l.wf(),
            l.limit() == max_requests,
            l.counts() == Map::<Seq<char>, u32>::empty(),
    {
        let l = PerManagerRateLimiter { max_requests, window, buckets: StrMap::new() };
        assert(l.counts() =~= Map::<Seq<char>, u32>::empty());
        l
    }

    /// Decides a request of `manager_id` made at `now`, `elapsed_nanos` after
    /// the manager's window began (not used for a manager never seen, whose
    /// window begins now), with windows `window_nanos` long. A window that is
    /// over restarts at `now` with the count at zero. The request counts
    /// against that manager only; it is allowed while the count is below the
    /// limit, and an allowed request raises the count by one.
    pub fn allow_at(&mut self, manager_id: &str, now: Instant, elapsed_nanos: u128, window_nanos: u128) -> (r: bool)
        requires
            old(self).wf(),
        ensures
            final(self).wf(),
            final(self).limit() == old(self).limit(),
            final(self).counts().dom() == old(self).counts().dom().insert(manager_id@),
            final(self).starts().dom() == final(self).counts().dom(),
            forall|m: Seq<char>| m != manager_id@ && #[trigger] old(self).counts().dom().contains(m)
                ==> final(self).counts()[m] == old(self).counts()[m] && final(self).starts()[m] == old(self).starts()[m],
            ({
                let known = old(self).counts().dom().contains(manager_id@);
                let over = known && elapsed_nanos > window_nanos;
                let before = if known { old(self).counts()[manager_id@] } else { 0 };
                &&& (final(self).counts()[manager_id@], r) == window_step(before, over, old(self).limit())
                &&& final(self).starts()[manager_id@] == if over || !known { now } else { old(self).starts()[manager_id@] }
            }),
    {
        let (count, started, known) = match self.buckets.get(manager_id) {
            Some(b) => (b.0, b.1, true),
            None => (0u32, now, false),
        };
        let window_over = known && elapsed_nanos > window_nanos;
        let (new_count, allowed) = decide_request(count, window_over, self.max_requests);
        let new_start = if window_over { now } else { started };
        self.buckets.insert(manager_id, (new_count, new_start));
        proof {
            assert(self.counts().dom() =~= old(self).counts().dom().insert(manager_id@));
            assert(self.starts().dom() =~= self.counts().dom());
        }
        allowed
    }

    /// Decides a request of `manager_id` now. It counts against that
    /// manager's window only: every other manager's count is unchanged. It is
    /// allowed only while the manager's count is below the limit, and an
    /// allowed request raises the count by one (from zero when the window was
    /// over). The time since the window began is read from the clock, and
    /// `allow_at` decides.
    pub fn allow(&mut self, manager_id: &str) -> (r: bool)
        requires
            old(self).wf(),
        ensures
            final(self).wf(),
            final(self).limit() == old(self).limit(),
            final(self).counts().dom() == old(self).counts().dom().insert(manager_id@),
            forall|m: Seq<char>| m != manager_id@ && #[trigger] old(self).counts().dom().contains(m)
                ==> final(self).counts()[m] == old(self).counts()[m],
            ({
                let before = if old(self).counts().dom().contains(manager_id@) {
                    old(self).counts()[manager_id@]
                } else {
                    0
                };
                (final(self).counts()[manager_id@], r) == window_step(before, true, old(self).limit())
                    || (final(self).counts()[manager_id@], r) == window_step(before, false, old(self).limit())
            }),
            r ==> final(self).counts()[manager_id@] <= old(self).limit(),
    {
        let now = instant_now();
        let elapsed: u128 = match self.buckets.get(manager_id) {
            Some(b) => nanos_between(&now, &b.1),
            None => 0,
        };
        let window = duration_nanos(&self.window);
        let r = self.allow_at(manager_id, now, elapsed, window);
        r
    }
}

/// Once a manager's window is over, its next request is allowed (given a
/// limit of at least one) and starts the new window's count at one,
/// whatever the count was; within a window, a manager at its limit is
/// refused and its count stays at the limit.
pub proof fn law_window_restarts(count: u32, max: u32)
    requires
        max >= 1,
    ensures
        window_step(count, true, max) == (1u32, true),
        window_step(max, false, max) == (max, false),
{
}

/// Managers are isolated: a manager at its limit is refused, while another
/// manager below the limit is still allowed.
pub proof fn law_managers_do_not_block_each_other(count_a: u32, count_b: u32, max: u32, over: bool)
    requires
        count_a >= max,
        count_b < max,
    ensures
        !window_step(count_a, false, max).1,
        window_step(count_b, over, max).1,
{
}

} // verus!
