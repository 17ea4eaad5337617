//! The state machine of a NAV-drop circuit breaker. Whether a drop reaches
//! the threshold is a floating-point comparison made by the caller; the
//! breaker records it. Instants are microseconds since the Unix epoch.
use vstd::prelude::*;

use crate::clock::utc_now_micros;

verus! {

#[derive(Debug, Clone, Copy, PartialEq, Eq, Structural)]
pub enum BreakerState {
    Closed,
    Open,
    HalfOpen,
}

/// A breaker's state and when it last tripped.
pub struct BreakerCore {
    state: BreakerState,
    triggered_at: Option<i64>,
}

impl BreakerCore {
    pub closed spec fn spec_state(&self) -> BreakerState {
        self.state
    }

    pub closed spec fn spec_triggered_at(&self) -> Option<i64> {
        self.triggered_at
    }

    /// A closed breaker that never tripped.
    pub fn new() -> (b: Self)
        ensures
            b.spec_state() == BreakerState::Closed,
            b.spec_triggered_at() is None,
    {
        BreakerCore { state: BreakerState::Closed, triggered_at: None }
    }

    /// Records an evaluation of the NAV: a drop at or past the threshold trips
    /// the breaker open at `now`; otherwise nothing changes. Returns whether
    /// it tripped.
    pub fn record_evaluation_at(&mut self, drop_reaches_threshold: bool, now: i64) -> (tripped: bool)
        ensures
            tripped == drop_reaches_threshold,
            tripped ==> final(self).spec_state() == BreakerState::Open && final(self).spec_triggered_at() == Some(now),
            !tripped ==> final(self).spec_state() == old(self).spec_state()
                && final(self).spec_triggered_at() == old(self).spec_triggered_at(),
    {
        if drop_reaches_threshold {
            self.state = BreakerState::Open;
            self.triggered_at = Some(now);
            true
        } else {
            false
        }
    }

    /// Records an evaluation of the NAV now.
    pub fn record_evaluation(&mut self, drop_reaches_threshold: bool) -> (tripped: bool)
        ensures
            tripped == drop_reaches_threshold,
            tripped ==> final(self).spec_state() == BreakerState::Open && final(self).spec_triggered_at() is Some,
            !tripped ==> final(self).spec_state() == old(self).spec_state()
                && final(self).spec_triggered_at() == old(self).spec_triggered_at(),
    {
        self.record_evaluation_at(drop_reaches_threshold, utc_now_micros())
    }

    /// Whether the breaker is open.
    pub fn is_open(&self) -> (r: bool)
        ensures
            r == (self.spec_state() == BreakerState::Open),
    {
        self.state == BreakerState::Open
    }

    /// Closes the breaker and forgets when it tripped.
    pub fn reset(&mut self)
        ensures
            final(self).spec_state() == BreakerState::Closed,
            final(self).spec_triggered_at() is None,
    {
        self.state = BreakerState::Closed;
        self.triggered_at = None;
    }

    /// An open breaker goes half-open, to let a trial through; in any other
    /// state nothing changes.
    pub fn attempt_half_open(&mut self)
        ensures
            final(self).spec_state() == if old(self).spec_state() == BreakerState::Open {
                BreakerState::HalfOpen
            } else {
                old(self).spec_state()
            },
            final(self).spec_triggered_at() == old(self).spec_triggered_at(),
    {
        if self.state == BreakerState::Open {
            self.state = BreakerState::HalfOpen;
        }
    }

    /// Whether the breaker is open after a trip, which needs a manual review.
    pub fn is_manual_review_required(&self) -> (r: bool)
        ensures
            r == (self.spec_state() == BreakerState::Open && self.spec_triggered_at() is Some),
    {
        self.state == BreakerState::Open && self.triggered_at.is_some()
    }

    /// The breaker's state.
    pub fn state(&self) -> (s: BreakerState)
        ensures
            s == self.spec_state(),
    {
        self.state
    }

    /// When the breaker last tripped, if it is not reset since.
    pub fn triggered_at(&self) -> (t: Option<i64>)
        ensures
            t == self.spec_triggered_at(),
    {
        self.triggered_at
    }
}

/// Whether a breaker state is one the breaker can reach: an open or
/// half-open breaker has a trip time.
pub open spec fn reachable(state: BreakerState, triggered_at: Option<i64>) -> bool {
    state != BreakerState::Closed ==> triggered_at is Some
}

/// Every operation keeps the breaker reachable: it is only ever open or
/// half-open after a trip that recorded its time.
pub proof fn law_open_only_after_trip(b: BreakerCore, after_trip: BreakerCore, after_half: BreakerCore, after_miss: BreakerCore, now: i64)
    requires
        reachable(b.spec_state(), b.spec_triggered_at()),
        after_trip.spec_state() == BreakerState::Open && after_trip.spec_triggered_at() == Some(now),
        after_half.spec_state() == (if b.spec_state() == BreakerState::Open { BreakerState::HalfOpen } else { b.spec_state() }),
        after_half.spec_triggered_at() == b.spec_triggered_at(),
        after_miss.spec_state() == b.spec_state() && after_miss.spec_triggered_at() == b.spec_triggered_at(),
    ensures
        reachable(after_trip.spec_state(), after_trip.spec_triggered_at()),
        reachable(after_half.spec_state(), after_half.spec_triggered_at()),
        reachable(after_miss.spec_state(), after_miss.spec_triggered_at()),
        reachable(BreakerState::Closed, None),
{
}

} // verus!
