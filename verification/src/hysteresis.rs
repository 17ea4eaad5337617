//! The state machine of a trigger with hysteresis: it enters at one
//! threshold and exits only at another, so it never fires twice in a row in
//! the same direction. Comparing a value with the thresholds is done by the
//! caller, which hands over the outcomes.
use vstd::prelude::*;

verus! {

#[derive(Debug, Clone, Copy, PartialEq, Eq, Structural)]
pub enum TriggerState {
    Below,
    Above,
}

#[derive(Debug, Clone, Copy, PartialEq, Eq, Structural)]
pub enum TriggerEvent {
    Entered,
    Exited,
}

/// The event an evaluation fires and the state it leaves, from the state
/// before it and whether the value reached the enter threshold (at or above
/// it) and the exit threshold (at or below it).
pub open spec fn step(s: TriggerState, reached_enter: bool, reached_exit: bool) -> (TriggerState, Option<TriggerEvent>) {
    match s {
        TriggerState::Below => if reached_enter {
            (TriggerState::Above, Some(TriggerEvent::Entered))
        } else {
            (TriggerState::Below, None)
        },
        TriggerState::Above => if reached_exit {
            (TriggerState::Below, Some(TriggerEvent::Exited))
        } else {
            (TriggerState::Above, None)
        },
    }
}

/// Which side of the thresholds the trigger is on.
pub struct HysteresisCore {
    state: TriggerState,
}

impl HysteresisCore {
    pub closed spec fn spec_state(&self) -> TriggerState {
        self.state
    }

    /// A trigger below its thresholds.
    pub fn new() -> (h: Self)
        ensures
            h.spec_state() == TriggerState::Below,
    {
        HysteresisCore { state: TriggerState::Below }
    }

    /// Evaluates one value, given how it compares with the thresholds.
    pub fn evaluate_crossing(&mut self, reached_enter: bool, reached_exit: bool) -> (e: Option<TriggerEvent>)
        ensures
            (final(self).spec_state(), e) == step(old(self).spec_state(), reached_enter, reached_exit),
            old(self).spec_state() == TriggerState::Below && !reached_enter
                ==> final(self).spec_state() == TriggerState::Below && e is None,
            old(self).spec_state() == TriggerState::Below && reached_enter
                ==> final(self).spec_state() == TriggerState::Above && e == Some(TriggerEvent::Entered),
            old(self).spec_state() == TriggerState::Above && !reached_exit
                ==> final(self).spec_state() == TriggerState::Above && e is None,
            old(self).spec_state() == TriggerState::Above && reached_exit
                ==> final(self).spec_state() == TriggerState::Below && e == Some(TriggerEvent::Exited),
    {
        match self.state {
            TriggerState::Below => {
                if reached_enter {
                    self.state = TriggerState::Above;
                    Some(TriggerEvent::Entered)
                } else {
                    None
                }
            },
            TriggerState::Above => {
                if reached_exit {
                    self.state = TriggerState::Below;
                    Some(TriggerEvent::Exited)
                } else {
                    None
                }
            },
        }
    }

    /// The current side.
    pub fn current_state(&self) -> (s: TriggerState)
        ensures
            s == self.spec_state(),
    {
        self.state
    }
}

/// No double fire: after the trigger enters, the next event (if any) is an
/// exit, and after it exits, the next event is an entry.
pub proof fn law_events_alternate(s: TriggerState, e1: bool, x1: bool, e2: bool, x2: bool)
    ensures
        ({
            let (s1, ev1) = step(s, e1, x1);
            let (s2, ev2) = step(s1, e2, x2);
            &&& (ev1 == Some(TriggerEvent::Entered) && ev2 is Some ==> ev2 == Some(TriggerEvent::Exited))
            &&& (ev1 == Some(TriggerEvent::Exited) && ev2 is Some ==> ev2 == Some(TriggerEvent::Entered))
        }),
{
}

/// A trigger fires only on crossing the threshold of its side: below, a
/// value that did not reach the enter threshold fires nothing and the
/// trigger stays below, whatever the exit comparison says; above, a value
/// that did not reach the exit threshold fires nothing and it stays above,
/// whatever the enter comparison says. Reaching the threshold of its side
/// always fires, and moves it to the other side.
pub proof fn law_fires_only_on_crossing(x: bool)
    ensures
        step(TriggerState::Below, false, x) == (TriggerState::Below, None::<TriggerEvent>),
        step(TriggerState::Above, x, false) == (TriggerState::Above, None::<TriggerEvent>),
        step(TriggerState::Below, true, x) == (TriggerState::Above, Some(TriggerEvent::Entered)),
        step(TriggerState::Above, x, true) == (TriggerState::Below, Some(TriggerEvent::Exited)),
{
}

/// An event always reports the state the trigger moved to.
pub proof fn law_event_matches_state(s: TriggerState, e: bool, x: bool)
    ensures
        step(s, e, x).1 == Some(TriggerEvent::Entered) ==> step(s, e, x).0 == TriggerState::Above,
        step(s, e, x).1 == Some(TriggerEvent::Exited) ==> step(s, e, x).0 == TriggerState::Below,
        step(s, e, x).1 is None ==> step(s, e, x).0 == s,
{
}

} // verus!
