use vstd::prelude::*;

use crate::phase::Phase;

verus! {

/// Index selected after one forward step from `sel` in a cyclic list of
/// `len` entries: the step after the last index wraps to zero, and the
/// very first step (no selection yet) lands on index zero.
pub open spec fn next_index(sel: Option<usize>, len: int) -> usize
    recommends
        1 <= len <= usize::MAX,
{
    match sel {
        None => 0,
        Some(i) => if i + 1 < len {
            (i + 1) as usize
        } else {
            0
        },
    }
}

/// Index selected after one backward step from `sel` in a cyclic list of
/// `len` entries: the step before index zero wraps to the last index, and
/// the very first step (no selection yet) lands on index zero.
pub open spec fn previous_index(sel: Option<usize>, len: int) -> usize
    recommends
        1 <= len <= usize::MAX,
{
    match sel {
        None => 0,
        Some(i) => if i == 0 {
            (len - 1) as usize
        } else {
            (i - 1) as usize
        },
    }
}

/// The selection reached from index `sel` by `k` repeated forward steps.
pub open spec fn next_iterate(sel: usize, len: int, k: nat) -> usize
    decreases k,
{
    if k == 0 {
        sel
    } else {
        next_index(Some(next_iterate(sel, len, (k - 1) as nat)), len)
    }
}

/// The selection reached from index `sel` by `k` repeated backward steps.
pub open spec fn previous_iterate(sel: usize, len: int, k: nat) -> usize
    decreases k,
{
    if k == 0 {
        sel
    } else {
        previous_index(Some(previous_iterate(sel, len, (k - 1) as nat)), len)
    }
}

proof fn lemma_next_iterate_closed_form(sel: usize, len: int, k: nat)
    requires
        1 <= len <= usize::MAX,
        sel < len,
        k <= len,
    ensures
        next_iterate(sel, len, k) == if sel + k < len {
            sel + k
        } else {
            sel + k - len
        },
    decreases k,
{
    if k > 0 {
        lemma_next_iterate_closed_form(sel, len, (k - 1) as nat);
    }
}

proof fn lemma_previous_iterate_closed_form(sel: usize, len: int, k: nat)
    requires
        1 <= len <= usize::MAX,
        sel < len,
        k <= len,
    ensures
        previous_iterate(sel, len, k) == if sel >= k {
            sel - k
        } else {
            sel + len - k
        },
    decreases k,
{
    if k > 0 {
        lemma_previous_iterate_closed_form(sel, len, (k - 1) as nat);
    }
}

/// Law: from any valid selection, repeated forward steps visit a fresh
/// index on each of the first `len` steps (so every index is reached) and
/// return to the starting index after exactly `len` steps.
pub proof fn lemma_next_cycles(sel: usize, len: int)
    requires
        1 <= len <= usize::MAX,
        sel < len,
    ensures
        next_iterate(sel, len, len as nat) == sel,
        forall|k1: nat, k2: nat|
            k1 < k2 < len ==> next_iterate(sel, len, k1) != next_iterate(sel, len, k2),
{
    assert forall|k: nat| k <= len implies next_iterate(sel, len, k) == (if sel + k < len {
        sel + k
    } else {
        sel + k - len
    }) by {
        lemma_next_iterate_closed_form(sel, len, k);
    }
}

/// Law: from any valid selection, repeated backward steps visit a fresh
/// index on each of the first `len` steps (so every index is reached) and
/// return to the starting index after exactly `len` steps.
pub proof fn lemma_previous_cycles(sel: usize, len: int)
    requires
        1 <= len <= usize::MAX,
        sel < len,
    ensures
        previous_iterate(sel, len, len as nat) == sel,
        forall|k1: nat, k2: nat|
            k1 < k2 < len ==> previous_iterate(sel, len, k1) != previous_iterate(sel, len, k2),
{
    assert forall|k: nat| k <= len implies previous_iterate(sel, len, k) == (if sel >= k {
        sel - k
    } else {
        sel + len - k
    }) by {
        lemma_previous_iterate_closed_form(sel, len, k);
    }
}

/// A cyclic single-selection cursor over an ordered, non-empty list of
/// phases. The selection, once set, is always a valid index: navigation
/// wraps instead of running out of bounds.
pub struct PhaseListNavigator {
    phases: Vec<Phase>,
    selected: Option<usize>,
}

impl PhaseListNavigator {
    pub closed spec fn phases_view(&self) -> Seq<Phase> {
        self.phases@
    }

    pub closed spec fn selected_view(&self) -> Option<usize> {
        self.selected
    }

    pub open spec fn wf(&self) -> bool {
        &&& self.phases_view().len() >= 1
        &&& (self.selected_view() matches Some(i) ==> i < self.phases_view().len())
        &&& (forall|i: int|
            0 <= i < self.phases_view().len() ==> (#[trigger] self.phases_view()[i]).wf())
    }

    /// Builds a navigator with nothing selected yet; an empty phase list
    /// is a configuration error and is rejected.
    pub fn new(phases: Vec<Phase>) -> (r: Option<PhaseListNavigator>)
        requires
            forall|i: int| 0 <= i < phases@.len() ==> (#[trigger] phases@[i]).wf(),
        ensures
            r is None <==> phases@.len() == 0,
            r matches Some(nav) ==> {
                &&& nav.phases_view() == phases@
                &&& nav.selected_view() is None
                &&& nav.wf()
            },
    {
        if phases.len() == 0 {
            None
        } else {
            Some(PhaseListNavigator { phases, selected: None })
        }
    }

    pub fn phase_count(&self) -> (n: usize)
        ensures
            n == self.phases_view().len(),
    {
        self.phases.len()
    }

    pub fn phase_at(&self, i: usize) -> (r: &Phase)
        requires
            i < self.phases_view().len(),
        ensures
            *r == self.phases_view()[i as int],
    {
        &self.phases[i]
    }

    pub fn selected(&self) -> (r: Option<usize>)
        ensures
            r == self.selected_view(),
    {
        self.selected
    }

    /// The currently selected phase, if any; nothing is selected only
    /// before the first navigation input.
    pub fn selected_phase(&self) -> (r: Option<&Phase>)
        requires
            self.wf(),
        ensures
            r is Some <==> self.selected_view() is Some,
            r matches Some(p) ==> self.selected_view() matches Some(i) && *p
                == self.phases_view()[i as int],
    {
        match self.selected {
            Some(i) => Some(&self.phases[i]),
            None => None,
        }
    }

    /// Advances the selection by one, wrapping from the last index to
    /// zero; the first call selects index zero.
    pub fn next(&mut self)
        requires
            old(self).wf(),
        ensures
            final(self).wf(),
            final(self).phases_view() == old(self).phases_view(),
            final(self).selected_view() == Some(
                next_index(old(self).selected_view(), old(self).phases_view().len() as int),
            ),
    {
        let i: usize = match self.selected {
            Some(i) => if i >= self.phases.len() - 1 {
                0
            } else {
                i + 1
            },
            None => 0,
        };
        self.selected = Some(i);
    }

    /// Retreats the selection by one, wrapping from index zero to the
    /// last index; the first call selects index zero.
    pub fn previous(&mut self)
        requires
            old(self).wf(),
        ensures
            final(self).wf(),
            final(self).phases_view() == old(self).phases_view(),
            final(self).selected_view() == Some(
                previous_index(old(self).selected_view(), old(self).phases_view().len() as int),
            ),
    {
        let i: usize = match self.selected {
            Some(i) => if i == 0 {
                self.phases.len() - 1
            } else {
                i - 1
            },
            None => 0,
        };
        self.selected = Some(i);
    }
}

} // verus!
