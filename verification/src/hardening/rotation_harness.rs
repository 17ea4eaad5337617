//! A harness that drives a strategy through a sequence of market phases.
use vstd::prelude::*;

verus! {

#[derive(Debug, PartialEq, Eq, Clone, Copy, Structural)]
pub enum MarketPhase {
    Bull,
    Bear,
}

/// The full cycle a rotation must go through: bull, bear, bull.
pub open spec fn full_cycle() -> Seq<MarketPhase> {
    seq![MarketPhase::Bull, MarketPhase::Bear, MarketPhase::Bull]
}

/// Replays market phases and records the ones visited.
pub struct RotationHarness {
    pub phases: Vec<MarketPhase>,
    pub visited: Vec<MarketPhase>,
}

impl RotationHarness {
    /// A harness for the given phases, none visited yet.
    pub fn new(phases: Vec<MarketPhase>) -> (h: Self)
        ensures
            h.phases == phases,
            h.visited@.len() == 0,
    {
        RotationHarness { phases, visited: Vec::new() }
    }

    /// Visits every phase in order.
    pub fn run(&mut self)
        ensures
            final(self).phases == old(self).phases,
            final(self).visited@ == old(self).visited@ + old(self).phases@,
    {
        let n = self.phases.len();
        let mut i: usize = 0;
        while i < n
            invariant
                n == self.phases@.len(),
                self.phases == old(self).phases,
                i <= n,
                self.visited@ == old(self).visited@ + self.phases@.subrange(0, i as int),
            decreases n - i,
        {
            let p = self.phases[i];
            self.visited.push(p);
            i = i + 1;
            assert(self.visited@ =~= old(self).visited@ + self.phases@.subrange(0, i as int));
        }
        assert(self.phases@.subrange(0, n as int) =~= self.phases@);
    }

    /// Whether exactly the full cycle bull, bear, bull was visited.
    pub fn completed_full_cycle(&self) -> (r: bool)
        ensures
            r == (self.visited@ == full_cycle()),
    {
        if self.visited.len() != 3 {
            return false;
        }
        let r = self.visited[0] == MarketPhase::Bull && self.visited[1] == MarketPhase::Bear
            && self.visited[2] == MarketPhase::Bull;
        if r {
            assert(self.visited@ =~= full_cycle());
        } else {
            assert(self.visited@ != full_cycle()) by {
                if self.visited@ == full_cycle() {
                    assert(self.visited@[0] == full_cycle()[0]);
                    assert(self.visited@[1] == full_cycle()[1]);
                    assert(self.visited@[2] == full_cycle()[2]);
                }
            }
        }
        r
    }
}

} // verus!
