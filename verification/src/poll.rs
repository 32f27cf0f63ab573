use vstd::prelude::*;

verus! {

/// Outcome of one non-blocking activation: a value is available now, or the
/// caller must activate again once progress is possible.
#[derive(Debug, Clone, Copy, PartialEq, Eq)]
pub enum Async<T> {
    Ready(T),
    NotReady,
}

/// How one exclusive drain of the shared inbound source stopped.
#[derive(Debug, Clone, Copy, PartialEq, Eq)]
pub enum DrainEnd<E> {
    /// No more items were immediately available; more may arrive later.
    Pending,
    /// The source reported end-of-stream.
    Closed,
    /// The source failed; items drained before the failure are still valid.
    Failed(E),
}

/// Everything one exclusive, non-blocking drain of the shared inbound source
/// yielded: each item that was immediately available, in arrival order, and
/// how the drain stopped.
#[derive(Debug, Clone, PartialEq, Eq)]
pub struct Drain<T, E> {
    pub items: Vec<T>,
    pub end: DrainEnd<E>,
}

impl<T, E> Drain<T, E> {
    /// A drain that yielded nothing and left the source open.
    pub fn empty() -> (r: Drain<T, E>)
        ensures
            r.items@ == Seq::<T>::empty(),
            r.end is Pending,
    {
        Drain { items: Vec::new(), end: DrainEnd::Pending }
    }
}

} // verus!
