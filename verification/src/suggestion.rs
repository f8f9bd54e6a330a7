//! The inline completion-suggestion state: zero or one active suggestion,
//! an ordered candidate list, a cycle index, a lock that suppresses
//! redundant provider queries while a suggestion is displayed, and the
//! buffer snapshot the candidates were computed against.

use vstd::prelude::*;

verus! {

/// Direction in which the candidate list is cycled.
#[derive(Clone, Copy, PartialEq, Eq, Structural, Debug)]
pub enum CycleDirection {
    /// Tab: next candidate.
    Down,
    /// Shift-Tab: previous candidate.
    Up,
}

/// The completion-suggestion overlay state.
pub struct SuggestionState {
    /// Candidates returned by the provider for `snapshot`, in order.
    pub candidates: Vec<Vec<char>>,
    /// Index of the candidate the next cycle step will display.
    pub next_idx: usize,
    /// The suggestion currently displayed after the cursor, if any.
    pub active: Option<Vec<char>>,
    /// True while a suggestion is displayed and the provider must not be
    /// re-queried.
    pub locked: bool,
    /// The buffer content the candidates were queried for.
    pub snapshot: Vec<char>,
}

impl SuggestionState {
    /// The cycle index stays inside the candidate list.
    pub open spec fn wf(self) -> bool {
        if self.candidates@.len() == 0 {
            self.next_idx == 0
        } else {
            self.next_idx < self.candidates@.len()
        }
    }

    /// No candidates, no active suggestion, unlocked.
    pub fn new() -> (r: SuggestionState)
        ensures
            r.wf(),
            r.candidates@ == Seq::<Vec<char>>::empty(),
            r.next_idx == 0,
            r.active is None,
            !r.locked,
            r.snapshot@ == Seq::<char>::empty(),
    {
        SuggestionState {
            candidates: Vec::new(),
            next_idx: 0,
            active: None,
            locked: false,
            snapshot: Vec::new(),
        }
    }

    /// Drop the displayed suggestion and allow the next query: called on
    /// every buffer edit that is not an acceptance.
    pub fn invalidate(&mut self)
        requires
            old(self).wf(),
        ensures
            final(self).wf(),
            final(self).active is None,
            !final(self).locked,
            final(self).candidates@ == old(self).candidates@,
            final(self).next_idx == old(self).next_idx,
            final(self).snapshot@ == old(self).snapshot@,
    {
        self.active = None;
        self.locked = false;
    }

    /// Take the displayed suggestion, leaving none active.
    pub fn take_active(&mut self) -> (r: Option<Vec<char>>)
        requires
            old(self).wf(),
        ensures
            final(self).wf(),
            r == old(self).active,
            final(self).active is None,
            final(self).candidates@ == old(self).candidates@,
            final(self).next_idx == old(self).next_idx,
            final(self).locked == old(self).locked,
            final(self).snapshot@ == old(self).snapshot@,
    {
        self.active.take()
    }

    /// Display the candidate at the cycle index and step the index in the
    /// given direction, wrapping at either end of the list.  With no
    /// candidates nothing changes.  Returns whether a suggestion is shown.
    pub fn cycle(&mut self, direction: CycleDirection) -> (shown: bool)
        requires
            old(self).wf(),
        ensures
            final(self).wf(),
            shown == (old(self).candidates@.len() > 0),
            final(self).candidates@ == old(self).candidates@,
            final(self).locked == old(self).locked,
            final(self).snapshot@ == old(self).snapshot@,
            old(self).candidates@.len() == 0 ==> final(self).active == old(self).active
                && final(self).next_idx == old(self).next_idx,
            old(self).candidates@.len() > 0 ==> {
                &&& (final(self).active matches Some(a) && a@ == old(self).candidates@[old(
                    self,
                ).next_idx as int]@)
                &&& final(self).next_idx == if direction is Down {
                    if old(self).next_idx + 1 == old(self).candidates@.len() {
                        0int
                    } else {
                        old(self).next_idx + 1
                    }
                } else {
                    if old(self).next_idx == 0 {
                        old(self).candidates@.len() - 1
                    } else {
                        old(self).next_idx - 1
                    }
                }
            },
    {
        if self.candidates.len() == 0 {
            return false;
        }
        let chosen = self.candidates[self.next_idx].clone();
        proof {
            assert(chosen@ =~= self.candidates@[self.next_idx as int]@);
        }
        self.active = Some(chosen);
        self.next_idx = match direction {
            CycleDirection::Down => {
                if self.next_idx + 1 == self.candidates.len() {
                    0
                } else {
                    self.next_idx + 1
                }
            },
            CycleDirection::Up => {
                if self.next_idx == 0 {
                    self.candidates.len() - 1
                } else {
                    self.next_idx - 1
                }
            },
        };
        true
    }
}

} // verus!
