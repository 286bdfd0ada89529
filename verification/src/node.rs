//! The plain node: a holder of one scalar under an identifier.

use vstd::prelude::*;
use crate::dot::ZERO;
use crate::ident::{allocated, IdAllocator};

verus! {

/// A node. It holds an identifier and a value that its owner sets.
pub struct Node {
    value: u64,
    id: usize,
}

impl Node {
    pub closed spec fn spec_id(&self) -> usize {
        self.id
    }

    pub closed spec fn spec_value(&self) -> u64 {
        self.value
    }

    /// A node with a fresh identifier and the value zero.
    pub fn new(ids: &mut IdAllocator) -> (n: Node)
        requires
            !old(ids).exhausted(),
        ensures
            allocated(*old(ids), *final(ids), n.id()),
            n.value() == ZERO,
    {
        Node { value: ZERO, id: ids.allocate() }
    }

    /// Stores `i` as the node's value, whatever it is. The identifier stays.
    pub fn update(&mut self, i: &u64)
        ensures
            final(self).value() == *i,
            final(self).id() == old(self).id(),
    {
        self.value = *i;
    }

    /// The identifier given to the node when it was made.
    #[verifier::when_used_as_spec(spec_id)]
    pub fn id(&self) -> (id: usize)
        ensures
            id == self.spec_id(),
    {
        self.id
    }

    /// The value stored last, or zero if none was stored yet.
    #[verifier::when_used_as_spec(spec_value)]
    pub fn value(&self) -> (value: u64)
        ensures
            value == self.spec_value(),
    {
        self.value
    }
}

} // verus!
