use vstd::prelude::*;

verus! {

/// Why a dispatcher could not resolve an id. A failed client call carries the
/// source's own error; the other two tags surface conditions that would
/// otherwise stall or corrupt a waiting caller.
#[derive(Debug, Clone, Copy, PartialEq, Eq)]
pub enum DispatchError<E> {
    /// The shared source failed while it was being drained.
    SourceFailed(E),
    /// The shared source closed before this id's item arrived; waiting any
    /// longer could never succeed.
    ClosedWhilePending,
    /// This id's item was already retrieved once.
    DuplicateRetrieval,
}

} // verus!
