//! A resumable journal of the steps of an agent rotation.
use vstd::prelude::*;

use crate::text::str_eq;

verus! {

/// One step of a rotation.
#[derive(Debug, Clone, Copy, PartialEq, Eq, Structural)]
pub enum RotationStep {
    PolicyRevoke,
    PolicyGrant,
    VaultReassign,
    StateSnapshot,
    Confirm,
}

/// The number of steps of a rotation.
pub const STEP_COUNT: usize = 5;

/// The steps of a rotation, in the order they are done.
pub open spec fn all_steps() -> Seq<RotationStep> {
    seq![
        RotationStep::PolicyRevoke,
        RotationStep::PolicyGrant,
        RotationStep::VaultReassign,
        RotationStep::StateSnapshot,
        RotationStep::Confirm,
    ]
}

/// The position of a step in the rotation.
pub open spec fn step_index(s: RotationStep) -> nat {
    match s {
        RotationStep::PolicyRevoke => 0,
        RotationStep::PolicyGrant => 1,
        RotationStep::VaultReassign => 2,
        RotationStep::StateSnapshot => 3,
        RotationStep::Confirm => 4,
    }
}

/// The step at position `i` of the rotation.
pub fn step_at(i: usize) -> (s: RotationStep)
    requires
        i < STEP_COUNT,
    ensures
        s == all_steps()[i as int],
        step_index(s) == i,
{
    match i {
        0 => RotationStep::PolicyRevoke,
        1 => RotationStep::PolicyGrant,
        2 => RotationStep::VaultReassign,
        3 => RotationStep::StateSnapshot,
        _ => RotationStep::Confirm,
    }
}

fn position(s: RotationStep) -> (i: usize)
    ensures
        i == step_index(s),
        i < STEP_COUNT,
        all_steps()[i as int] == s,
{
    match s {
        RotationStep::PolicyRevoke => 0,
        RotationStep::PolicyGrant => 1,
        RotationStep::VaultReassign => 2,
        RotationStep::StateSnapshot => 3,
        RotationStep::Confirm => 4,
    }
}

/// The progress of rotating a vault from one agent to another.
pub struct RotationJournal {
    pub vault_id: String,
    pub from_agent: String,
    pub to_agent: String,
    pub step: RotationStep,
    pub completed_steps: Vec<RotationStep>,
}

impl RotationJournal {
    /// The completed steps are the first steps of the rotation, in order, and
    /// `step` is the next one (the last one once all are done).
    pub open spec fn wf(&self) -> bool {
        &&& self.completed_steps@.len() <= STEP_COUNT
        &&& self.completed_steps@ == all_steps().subrange(0, self.completed_steps@.len() as int)
        &&& self.completed_steps@.len() < STEP_COUNT ==> self.step == all_steps()[self.completed_steps@.len() as int]
        &&& self.completed_steps@.len() == STEP_COUNT ==> self.step == RotationStep::Confirm
    }

    pub open spec fn spec_is_complete(&self) -> bool {
        self.completed_steps@.len() >= STEP_COUNT
    }

    pub open spec fn spec_next_step(&self) -> Option<RotationStep> {
        if self.spec_is_complete() {
            None
        } else {
            Some(all_steps()[self.completed_steps@.len() as int])
        }
    }

    /// A rotation with no step done yet.
    pub fn new(vault_id: String, from: String, to: String) -> (j: Self)
        ensures
            j.vault_id == vault_id,
            j.from_agent == from,
            j.to_agent == to,
            j.step == RotationStep::PolicyRevoke,
            j.completed_steps@.len() == 0,
            j.wf(),
    {
        let j = RotationJournal {
            vault_id,
            from_agent: from,
            to_agent: to,
            step: RotationStep::PolicyRevoke,
            completed_steps: Vec::new(),
        };
        assert(j.completed_steps@ =~= all_steps().subrange(0, 0));
        j
    }

    /// Whether steps remain to be done.
    pub fn can_resume(&self) -> (r: bool)
        ensures
            r == !self.spec_is_complete(),
    {
        !self.is_complete()
    }

    /// The step to do next, if any remains.
    pub fn next_step(&self) -> (r: Option<RotationStep>)
        ensures
            r == self.spec_next_step(),
    {
        if self.is_complete() {
            return None;
        }
        Some(step_at(self.completed_steps.len()))
    }

    /// Records `step` as done when it is the step to do next; any other step
    /// leaves the journal unchanged.
    pub fn complete_step(&mut self, step: RotationStep)
        ensures
            final(self).vault_id == old(self).vault_id,
            final(self).from_agent == old(self).from_agent,
            final(self).to_agent == old(self).to_agent,
            old(self).spec_next_step() == Some(step) ==> {
                &&& final(self).completed_steps@ == old(self).completed_steps@.push(step)
                &&& final(self).step == if step_index(step) + 1 < STEP_COUNT {
                    all_steps()[step_index(step) + 1 as int]
                } else {
                    old(self).step
                }
            },
            old(self).spec_next_step() != Some(step) ==> *final(self) == *old(self),
            old(self).wf() ==> final(self).wf(),
    {
        if self.next_step() == Some(step) {
            self.completed_steps.push(step);
            let idx = position(step);
            let next_idx = idx + 1;
            if next_idx < STEP_COUNT {
                self.step = step_at(next_idx);
            }
            proof {
                if old(self).wf() {
                    assert(self.completed_steps@ =~= all_steps().subrange(0, self.completed_steps@.len() as int));
                }
            }
        }
    }

    /// The number of steps done and the number of steps of a rotation.
    pub fn step_progress(&self) -> (r: (usize, usize))
        ensures
            r.0 == self.completed_steps@.len(),
            r.1 == STEP_COUNT,
    {
        (self.completed_steps.len(), STEP_COUNT)
    }

    /// Whether every step is done.
    pub fn is_complete(&self) -> (r: bool)
        ensures
            r == self.spec_is_complete(),
    {
        self.completed_steps.len() >= STEP_COUNT
    }
}

/// Doing the steps of a fresh rotation in order completes it.
pub proof fn law_steps_in_order_complete()
    ensures
        ({
            let s = all_steps();
            &&& s.len() == STEP_COUNT
            &&& forall|i: int| 0 <= i < STEP_COUNT ==> step_index(#[trigger] s[i]) == i
            &&& s.subrange(0, STEP_COUNT as int) == s
        }),
{
    assert(all_steps().subrange(0, STEP_COUNT as int) =~= all_steps());
}

/// The journals of rotations in progress, at most one per vault when saved
/// through `save`.
pub struct RotationJournalStore {
    journals: Vec<RotationJournal>,
}

/// The position of the first journal of `vault` in `js`, if any.
pub open spec fn first_of(js: Seq<RotationJournal>, vault: Seq<char>, i: int) -> bool {
    0 <= i < js.len() && js[i].vault_id@ == vault && forall|k: int| 0 <= k < i ==> (#[trigger] js[k]).vault_id@ != vault
}

impl RotationJournalStore {
    pub closed spec fn journals(&self) -> Seq<RotationJournal> {
        self.journals@
    }

    /// No journal.
    pub fn new() -> (s: Self)
        ensures
            s.journals().len() == 0,
    {
        RotationJournalStore { journals: Vec::new() }
    }

    /// Stores a journal, replacing the first one of the same vault.
    pub fn save(&mut self, journal: RotationJournal)
        ensures
            (exists|i: int| first_of(old(self).journals(), journal.vault_id@, i) && final(self).journals()
                == old(self).journals().update(i, journal))
            || ((forall|k: int| 0 <= k < old(self).journals().len()
                ==> (#[trigger] old(self).journals()[k]).vault_id@ != journal.vault_id@)
                && final(self).journals() == old(self).journals().push(journal)),
    {
        let mut i: usize = 0;
        while i < self.journals.len()
            invariant
                i <= self.journals@.len(),
                self.journals@ == old(self).journals@,
                forall|k: int| 0 <= k < i ==> (#[trigger] self.journals@[k]).vault_id@ != journal.vault_id@,
            decreases self.journals@.len() - i,
        {
            if str_eq(self.journals[i].vault_id.as_str(), journal.vault_id.as_str()) {
                assert(first_of(old(self).journals(), journal.vault_id@, i as int));
                self.journals.set(i, journal);
                return;
            }
            i = i + 1;
        }
        self.journals.push(journal);
    }

    /// The journals of unfinished rotations, in storage order.
    pub fn get_incomplete(&self) -> (r: Vec<&RotationJournal>)
        ensures
            r@.map_values(|j: &RotationJournal| *j)
                == self.journals().filter(|j: RotationJournal| !j.spec_is_complete()),
    {
        let mut r: Vec<&RotationJournal> = Vec::new();
        let mut i: usize = 0;
        while i < self.journals.len()
            invariant
                i <= self.journals@.len(),
                r@.map_values(|j: &RotationJournal| *j)
                    == self.journals@.subrange(0, i as int).filter(|j: RotationJournal| !j.spec_is_complete()),
            decreases self.journals@.len() - i,
        {
            proof {
                reveal_with_fuel(Seq::<_>::filter, 1);
                assert(self.journals@.subrange(0, i + 1).drop_last() =~= self.journals@.subrange(0, i as int));
            }
            let j = &self.journals[i];
            if j.can_resume() {
                let ghost before = r@.map_values(|j: &RotationJournal| *j);
                r.push(j);
                assert(r@.map_values(|j: &RotationJournal| *j) =~= before.push(*j));
            }
            i = i + 1;
        }
        assert(self.journals@.subrange(0, i as int) =~= self.journals@);
        r
    }

    /// The first unfinished journal of `vault_id`, to continue it.
    pub fn resume(&mut self, vault_id: &str) -> (r: Option<&mut RotationJournal>)
        ensures
            r is None ==> forall|k: int| 0 <= k < old(self).journals().len()
                ==> !((#[trigger] old(self).journals()[k]).vault_id@ == vault_id@
                    && !old(self).journals()[k].spec_is_complete()),
            r is None ==> final(self).journals() == old(self).journals(),
            r matches Some(j) ==> exists|i: int| {
                &&& 0 <= i < old(self).journals().len()
                &&& (#[trigger] old(self).journals()[i]).vault_id@ == vault_id@
                &&& !old(self).journals()[i].spec_is_complete()
                &&& forall|k: int| 0 <= k < i ==> !((#[trigger] old(self).journals()[k]).vault_id@ == vault_id@
                    && !old(self).journals()[k].spec_is_complete())
                &&& *j == old(self).journals()[i]
                &&& final(self).journals() == old(self).journals().update(i, *final(j))
            },
    {
        let mut i: usize = 0;
        while i < self.journals.len()
            invariant
                i <= self.journals@.len(),
                self.journals@ == old(self).journals@,
                forall|k: int| 0 <= k < i ==> !((#[trigger] self.journals@[k]).vault_id@ == vault_id@
                    && !self.journals@[k].spec_is_complete()),
            decreases self.journals@.len() - i,
        {
            if str_eq(self.journals[i].vault_id.as_str(), vault_id) && self.journals[i].can_resume() {
                return Some(&mut self.journals[i]);
            }
            i = i + 1;
        }
        None
    }
}

} // verus!
