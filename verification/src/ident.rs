//! Allocation of identifiers: ascending integers, each issued once.

use vstd::prelude::*;

verus! {

/// A counter that issues identifiers `0, 1, 2, ...`, each exactly once.
pub struct IdAllocator {
    next: usize,
}

impl View for IdAllocator {
    type V = nat;

    /// The number of identifiers issued so far, which is also the identifier
    /// that the next call of [`IdAllocator::allocate`] returns.
    closed spec fn view(&self) -> nat {
        self.next as nat
    }
}

/// What one allocation does: it returns the number of identifiers issued
/// before it, and leaves one more issued.
pub open spec fn allocated(before: IdAllocator, after: IdAllocator, id: usize) -> bool {
    &&& id == before@
    &&& after@ == before@ + 1
}

/// `states` and `ids` record successive allocations from one allocator, made
/// directly or by making a unit: `states[k]` is the allocator before the
/// `k`-th of them, `states[k + 1]` the allocator after it, and `ids[k]` the
/// identifier that it returned.
pub open spec fn allocations(states: Seq<IdAllocator>, ids: Seq<usize>) -> bool {
    &&& states.len() == ids.len() + 1
    &&& forall|k: int|
        0 <= k < ids.len() ==> allocated(states[k], states[k + 1], #[trigger] ids[k])
}

impl IdAllocator {
    /// Whether `id` has been issued by this allocator.
    pub open spec fn has_issued(&self, id: nat) -> bool {
        id < self@
    }

    /// Whether the allocator has run out of identifiers.
    pub open spec fn exhausted(&self) -> bool {
        self@ >= usize::MAX
    }

    /// An allocator that has issued nothing; its first identifier is 0.
    pub fn new() -> (ids: IdAllocator)
        ensures
            ids@ == 0,
    {
        IdAllocator { next: 0 }
    }

    /// Tells whether the allocator has run out of identifiers.
    pub fn is_exhausted(&self) -> (full: bool)
        ensures
            full == self.exhausted(),
    {
        self.next == usize::MAX
    }

    /// Issues the next identifier.
    ///
    /// The identifier is new, it is greater than every identifier issued
    /// before, and it is the only one added to the issued ones.
    pub fn allocate(&mut self) -> (id: usize)
        requires
            !old(self).exhausted(),
        ensures
            allocated(*old(self), *final(self), id),
            !old(self).has_issued(id as nat),
            forall|earlier: nat| old(self).has_issued(earlier) ==> earlier < id,
            forall|other: nat|
                final(self).has_issued(other) <==> old(self).has_issued(other) || other == id,
    {
        let id: usize = self.next;
        self.next = self.next + 1;
        id
    }
}

/// Successive allocations count up by one from the number of identifiers
/// issued before the first of them.
pub proof fn lemma_ids_count_up(states: Seq<IdAllocator>, ids: Seq<usize>, i: int)
    requires
        allocations(states, ids),
        0 <= i < ids.len(),
    ensures
        ids[i] == states[0]@ + i,
        states[i + 1]@ == states[0]@ + i + 1,
    decreases i,
{
    if i > 0 {
        lemma_ids_count_up(states, ids, i - 1);
    }
    assert(allocated(states[i], states[i + 1], ids[i]));
}

/// Each allocation returns an identifier strictly greater than every one
/// returned before it.
pub proof fn lemma_later_id_is_greater(states: Seq<IdAllocator>, ids: Seq<usize>, i: int, j: int)
    requires
        allocations(states, ids),
        0 <= i < j < ids.len(),
    ensures
        ids[i] < ids[j],
{
    lemma_ids_count_up(states, ids, i);
    lemma_ids_count_up(states, ids, j);
}

/// Each allocation returns an identifier that the allocator had not issued
/// when the allocations began, and that is strictly greater than every one it
/// had issued.
pub proof fn lemma_new_ids_exceed_issued(
    states: Seq<IdAllocator>,
    ids: Seq<usize>,
    i: int,
    earlier: nat,
)
    requires
        allocations(states, ids),
        0 <= i < ids.len(),
        states[0].has_issued(earlier),
    ensures
        earlier < ids[i],
        !states[0].has_issued(ids[i] as nat),
{
    lemma_ids_count_up(states, ids, i);
}

/// No identifier is returned twice, so no two units share one.
pub proof fn lemma_ids_unique(states: Seq<IdAllocator>, ids: Seq<usize>, i: int, j: int)
    requires
        allocations(states, ids),
        0 <= i < ids.len(),
        0 <= j < ids.len(),
        i != j,
    ensures
        ids[i] != ids[j],
{
    lemma_ids_count_up(states, ids, i);
    lemma_ids_count_up(states, ids, j);
}

} // verus!
