use vstd::prelude::*;

verus! {

/// A batch of increments, accumulated while a counter cannot be touched (for
/// instance while a lock around the structure it describes is held) and
/// applied in one step afterwards.
pub struct DelayedAdd {
    count: usize,
}

impl DelayedAdd {
    /// The increments accumulated so far.
    pub closed spec fn pending(&self) -> nat {
        self.count as nat
    }

    pub fn new() -> (r: Self)
        ensures
            r.pending() == 0,
    {
        DelayedAdd { count: 0 }
    }

    pub fn increment(&mut self)
        requires
            old(self).pending() < usize::MAX,
        ensures
            final(self).pending() == old(self).pending() + 1,
    {
        self.count = self.count + 1;
    }

    /// Apply the accumulated increments to the counter they were meant for,
    /// consuming the batch.
    pub fn commit(self, target: usize) -> (r: usize)
        requires
            target + self.pending() <= usize::MAX,
        ensures
            r == target + self.pending(),
    {
        target + self.count
    }
}

} // verus!
