//! The case counter: the one piece of state that all workers share.
//!
//! Identifiers are handed out in ascending order and never twice. A counter
//! that has run out refuses instead of starting over.

use vstd::prelude::*;

verus! {

/// A source of case identifiers.
#[derive(Debug)]
pub struct CaseCounter {
    next: usize,
}

impl CaseCounter {
    /// The identifier that the next case gets.
    pub closed spec fn upcoming(self) -> nat {
        self.next as nat
    }

    /// The identifiers handed out so far, for a counter that started at zero.
    pub open spec fn issued(self) -> Set<nat> {
        Set::new(|id: nat| id < self.upcoming())
    }

    /// Whether every identifier has been handed out.
    pub open spec fn is_exhausted(self) -> bool {
        self.upcoming() >= usize::MAX
    }

    /// One successful `issue`: `before` hands out `id` and becomes `after`.
    pub open spec fn issues(before: CaseCounter, id: nat, after: CaseCounter) -> bool {
        id == before.upcoming() && after.upcoming() == id + 1
    }

    /// A counter that has handed out nothing.
    pub fn new() -> (counter: CaseCounter)
        ensures
            counter.upcoming() == 0,
            counter.issued() == Set::<nat>::empty(),
    {
        let counter = CaseCounter { next: 0 };
        counter
    }

    /// Hands out the next identifier, one that no earlier call has handed
    /// out. Refuses, and stays as it is, once it has run out.
    pub fn issue(&mut self) -> (id: Option<usize>)
        ensures
            id is None <==> old(self).is_exhausted(),
            id is None ==> *final(self) == *old(self),
            id matches Some(id) ==> {
                &&& CaseCounter::issues(*old(self), id as nat, *final(self))
                &&& !old(self).issued().contains(id as nat)
                &&& final(self).issued() == old(self).issued().insert(id as nat)
            },
    {
        if self.next == usize::MAX {
            None
        } else {
            let id: usize = self.next;
            self.next = id + 1;
            Some(id)
        }
    }
}

/// Along any run of successful calls of `issue`, however many and by
/// whichever workers, the identifiers handed out are pairwise distinct:
/// `states` are the counter before the first call and after each call, and
/// `ids` what the calls returned.
pub proof fn lemma_identifiers_unique(states: Seq<CaseCounter>, ids: Seq<nat>)
    requires
        states.len() == ids.len() + 1,
        forall|k: int|
            0 <= k < ids.len() ==> CaseCounter::issues(#[trigger] states[k], ids[k], states[k + 1]),
    ensures
        forall|i: int, j: int| 0 <= i < j < ids.len() ==> ids[i] != ids[j],
{
    assert forall|i: int, j: int| 0 <= i < j < ids.len() implies ids[i] != ids[j] by {
        lemma_counter_ascends(states, ids, i + 1, j);
        assert(CaseCounter::issues(states[i], ids[i], states[i + 1]));
    }
}

/// Along a run of successful calls of `issue` the counter never goes back.
proof fn lemma_counter_ascends(states: Seq<CaseCounter>, ids: Seq<nat>, from: int, to: int)
    requires
        states.len() == ids.len() + 1,
        forall|k: int|
            0 <= k < ids.len() ==> CaseCounter::issues(#[trigger] states[k], ids[k], states[k + 1]),
        0 <= from <= to < states.len(),
    ensures
        states[from].upcoming() <= states[to].upcoming(),
    decreases to - from,
{
    if from < to {
        lemma_counter_ascends(states, ids, from, to - 1);
    }
}

} // verus!
