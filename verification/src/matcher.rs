use vstd::prelude::*;

use crate::phase::{Pattern, Symbol};

verus! {

/// Progress after one input: a match at the current position advances by
/// one, anything else discards all accumulated progress. There is no
/// partial credit and no backtracking.
pub open spec fn match_step(target: Seq<Symbol>, progress: nat, input: Symbol) -> nat {
    if progress < target.len() && target[progress as int] == input {
        progress + 1
    } else {
        0
    }
}

/// Progress after feeding `inputs`, in order, to a fresh matcher for
/// `target`.
pub open spec fn run_progress(target: Seq<Symbol>, inputs: Seq<Symbol>) -> nat
    decreases inputs.len(),
{
    if inputs.len() == 0 {
        0
    } else {
        match_step(target, run_progress(target, inputs.drop_last()), inputs.last())
    }
}

proof fn lemma_replay_prefix(target: Seq<Symbol>, k: int)
    requires
        0 <= k <= target.len(),
    ensures
        run_progress(target, target.take(k)) == k,
    decreases k,
{
    if k > 0 {
        lemma_replay_prefix(target, k - 1);
        assert(target.take(k).drop_last() =~= target.take(k - 1));
        assert(target.take(k).last() == target[k - 1]);
    }
}

/// Law: replaying a pattern's own symbols in order advances progress by
/// exactly one per input and never resets: after the first `k` inputs the
/// progress is exactly `k`, and after all of them it equals the pattern's
/// length.
pub proof fn lemma_exact_replay(target: Seq<Symbol>)
    ensures
        forall|k: int| 0 <= k <= target.len() ==> run_progress(target, #[trigger] target.take(k)) == k,
        run_progress(target, target) == target.len(),
{
    assert forall|k: int| 0 <= k <= target.len() implies run_progress(
        target,
        #[trigger] target.take(k),
    ) == k by {
        lemma_replay_prefix(target, k);
    }
    assert(target.take(target.len() as int) =~= target);
}

/// Law: an input sequence that follows the pattern for its first `k`
/// symbols and then deviates at position `k` leaves progress at zero
/// immediately after the deviating input, however much progress had been
/// accumulated.
pub proof fn lemma_deviation_resets(target: Seq<Symbol>, inputs: Seq<Symbol>, k: int)
    requires
        0 <= k < target.len(),
        inputs.len() == k + 1,
        forall|j: int| 0 <= j < k ==> inputs[j] == target[j],
        inputs[k] != target[k],
    ensures
        run_progress(target, inputs) == 0,
{
    assert(inputs.drop_last() =~= target.take(k));
    lemma_replay_prefix(target, k);
}

/// Tracks how far into a phase's pattern the player has come. Progress
/// counts the consecutive correctly-matched leading symbols; a wrong
/// input at any point starts the attempt over.
pub struct SequenceMatcher {
    target: Pattern,
    progress: usize,
}

impl SequenceMatcher {
    pub closed spec fn target_view(&self) -> Seq<Symbol> {
        self.target@
    }

    pub closed spec fn progress_view(&self) -> nat {
        self.progress as nat
    }

    pub open spec fn wf(&self) -> bool {
        self.progress_view() <= self.target_view().len()
    }

    /// A fresh matcher bound to `target`, with no progress yet.
    pub fn new(target: Pattern) -> (r: SequenceMatcher)
        ensures
            r.target_view() == target@,
            r.progress_view() == 0,
            r.wf(),
    {
        SequenceMatcher { target, progress: 0 }
    }

    pub fn progress(&self) -> (p: usize)
        ensures
            p == self.progress_view(),
    {
        self.progress
    }

    pub fn target(&self) -> (r: &Pattern)
        ensures
            r@ == self.target_view(),
    {
        &self.target
    }

    pub fn is_complete(&self) -> (b: bool)
        ensures
            b == (self.progress_view() == self.target_view().len()),
    {
        self.progress == self.target.len()
    }

    /// Feeds one directional input; returns whether the whole pattern has
    /// now been reproduced. A symbol other than the one at the current
    /// position resets progress to zero.
    pub fn step(&mut self, input: Symbol) -> (done: bool)
        requires
            old(self).wf(),
        ensures
            final(self).wf(),
            final(self).target_view() == old(self).target_view(),
            final(self).progress_view() == match_step(
                old(self).target_view(),
                old(self).progress_view(),
                input,
            ),
            done == (final(self).progress_view() == final(self).target_view().len()),
    {
        let matched = self.progress < self.target.len() && self.target.symbol_at(self.progress)
            == input;
        if matched {
            self.progress = self.progress + 1;
        } else {
            self.progress = 0;
        }
        self.progress == self.target.len()
    }

    /// Discards all accumulated progress; the attempt starts over. This is
    /// what any unrecognized input during a challenge causes.
    pub fn reset(&mut self)
        ensures
            final(self).wf(),
            final(self).target_view() == old(self).target_view(),
            final(self).progress_view() == 0,
    {
        self.progress = 0;
    }
}

} // verus!
