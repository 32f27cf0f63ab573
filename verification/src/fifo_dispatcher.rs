use vstd::prelude::*;

use crate::delayed_add::DelayedAdd;
use crate::dispatcher::DispatchError;
use crate::poll::{Async, Drain, DrainEnd};
use crate::ready_queue::{ReadyQueue, RetrieveError};

verus! {

/// Pipeline-mode dispatcher: correlation is purely positional. Receiver ids
/// are assigned sequentially when a receiver is spawned, in request-issuance
/// order, and the item answering id `n` is the `n`-th item the shared source
/// produces, independent of the items' contents.
pub struct FifoDispatcher<T> {
    queue: ReadyQueue<T>,
    latest_ready_id: usize,
    new_id: usize,
    closed: bool,
}

impl<T> FifoDispatcher<T> {
    /// Every item the source produced so far, in production order; the item
    /// answering id `n` is the one at index `n`.
    pub closed spec fn produced(&self) -> Seq<T> {
        self.queue.produced()
    }

    /// How many items the source has produced so far.
    pub open spec fn total(&self) -> nat {
        self.produced().len()
    }

    /// Whether the item for this id has arrived and was not yet retrieved.
    pub closed spec fn available(&self, id: nat) -> bool {
        self.queue.available(id)
    }

    /// How many receiver ids were handed out; also the next id to hand out.
    pub closed spec fn spawned(&self) -> nat {
        self.new_id as nat
    }

    /// Whether the shared source has reported end-of-stream.
    pub closed spec fn closed(&self) -> bool {
        self.closed
    }

    pub closed spec fn wf(&self) -> bool {
        &&& self.queue.wf()
        &&& self.latest_ready_id as nat == self.queue.total()
    }

    pub fn new() -> (r: Self)
        ensures
            r.wf(),
            r.total() == 0,
            r.spawned() == 0,
            !r.closed(),
            forall|j: nat| !r.available(j),
    {
        FifoDispatcher {
            queue: ReadyQueue::new(),
            latest_ready_id: 0,
            new_id: 0,
            closed: false,
        }
    }

    /// How many receiver ids were handed out so far.
    pub fn spawned_count(&self) -> (r: usize)
        ensures
            r as nat == self.spawned(),
    {
        self.new_id
    }

    /// How many items the source has produced so far.
    pub fn produced_count(&self) -> (r: usize)
        requires
            self.wf(),
        ensures
            r as nat == self.total(),
    {
        self.latest_ready_id
    }

    /// Hand out the next receiver id. Ids are assigned sequentially at
    /// receiver-spawn time, so they match request issuance order.
    pub fn spawn_receiver(&mut self) -> (id: usize)
        requires
            old(self).wf(),
            old(self).spawned() < usize::MAX,
        ensures
            final(self).wf(),
            id as nat == old(self).spawned(),
            final(self).spawned() == old(self).spawned() + 1,
            final(self).produced() == old(self).produced(),
            final(self).closed() == old(self).closed(),
            forall|j: nat| final(self).available(j) <==> old(self).available(j),
    {
        let id = self.new_id;
        self.new_id = self.new_id + 1;
        id
    }

    /// Absorb everything one exclusive drain of the shared source yielded:
    /// store every drained item at the next positions, then publish the new
    /// ready count in one step. A source failure is reported to this caller
    /// alone; the items drained before it remain stored for their waiters.
    pub fn get_from_source<E>(&mut self, drain: Drain<T, E>) -> (r: Result<(), E>)
        requires
            old(self).wf(),
            old(self).total() + drain.items@.len() <= usize::MAX,
        ensures
            final(self).wf(),
            final(self).produced() == old(self).produced() + drain.items@,
            final(self).spawned() == old(self).spawned(),
            final(self).closed() == (old(self).closed() || drain.end is Closed),
            forall|j: nat|
                final(self).available(j) <==> (old(self).available(j) || old(self).total() <= j
                    < final(self).total()),
            match drain.end {
                DrainEnd::Failed(e) => r == Err::<(), E>(e),
                _ => r == Ok::<(), E>(()),
            },
    {
        let Drain { mut items, end } = drain;
        let ghost all_items: Seq<T> = items@;
        let mut update_latest_ready_id = DelayedAdd::new();
        while items.len() > 0
            invariant
                self.queue.wf(),
                self.latest_ready_id == old(self).latest_ready_id,
                self.new_id == old(self).new_id,
                self.closed == old(self).closed,
                old(self).wf(),
                old(self).total() + all_items.len() <= usize::MAX,
                all_items.len() >= items@.len(),
                items@ == all_items.skip(all_items.len() - items@.len()),
                self.queue.produced() == old(self).produced() + all_items.take(
                    all_items.len() - items@.len(),
                ),
                update_latest_ready_id.pending() == all_items.len() - items@.len(),
                forall|j: nat|
                    self.queue.available(j) <==> (old(self).available(j) || old(self).total() <= j
                        < self.queue.total()),
            decreases items@.len(),
        {
            let ghost prev = items@;
            let item = items.remove(0);
            proof {
                assert(item == all_items[all_items.len() - prev.len()]);
            }
            self.queue.push(item);
            update_latest_ready_id.increment();
            proof {
                assert(items@ =~= all_items.skip(all_items.len() - items@.len()));
                assert(self.queue.produced() =~= old(self).produced() + all_items.take(
                    all_items.len() - items@.len(),
                ));
            }
        }
        proof {
            assert(all_items.take(all_items.len() as int) =~= all_items);
        }
        self.latest_ready_id = update_latest_ready_id.commit(self.latest_ready_id);
        match end {
            DrainEnd::Pending => Ok(()),
            DrainEnd::Closed => {
                self.closed = true;
                Ok(())
            },
            DrainEnd::Failed(e) => Err(e),
        }
    }

    /// Retrieve the item for this id if its position has already been
    /// produced; report a duplicate retrieval loudly rather than returning
    /// stale data.
    fn pop_if_ready(&mut self, id: usize) -> (r: Result<Option<T>, RetrieveError>)
        requires
            old(self).wf(),
        ensures
            final(self).wf(),
            final(self).produced() == old(self).produced(),
            final(self).spawned() == old(self).spawned(),
            final(self).closed() == old(self).closed(),
            match r {
                Ok(Some(item)) => {
                    &&& old(self).available(id as nat)
                    &&& id < old(self).total()
                    &&& item == old(self).produced()[id as int]
                    &&& forall|j: nat|
                        final(self).available(j) <==> (old(self).available(j) && j != id)
                },
                Ok(None) => {
                    &&& id >= old(self).total()
                    &&& forall|j: nat| final(self).available(j) <==> old(self).available(j)
                },
                Err(e) => {
                    &&& e == RetrieveError::DuplicateRetrieval
                    &&& id < old(self).total()
                    &&& !old(self).available(id as nat)
                    &&& forall|j: nat| final(self).available(j) <==> old(self).available(j)
                },
            },
    {
        if id < self.latest_ready_id {
            match self.queue.pop(id) {
                Ok(item) => Ok(Some(item)),
                Err(RetrieveError::DuplicateRetrieval) => Err(
                    RetrieveError::DuplicateRetrieval,
                ),
                Err(RetrieveError::NotYetAvailable) => vstd::pervasive::unreached(),
            }
        } else {
            Ok(None)
        }
    }

    /// One full dispatcher activation on behalf of the caller waiting for
    /// `id`: absorb what the caller's drain of the shared source yielded (on
    /// behalf of every waiting id), then resolve `id` if its item is now
    /// present. A caller whose id can never be answered because the source
    /// closed is told so instead of pending forever, and an id retrieved
    /// before fails loudly.
    pub fn poll<E>(&mut self, id: usize, drain: Drain<T, E>) -> (r: Result<
        Async<T>,
        DispatchError<E>,
    >)
        requires
            old(self).wf(),
            old(self).total() + drain.items@.len() <= usize::MAX,
        ensures
            final(self).wf(),
            final(self).produced() == old(self).produced() + drain.items@,
            final(self).spawned() == old(self).spawned(),
            final(self).closed() == (old(self).closed() || drain.end is Closed),
            match r {
                Ok(Async::Ready(item)) => {
                    &&& !(drain.end is Failed)
                    &&& id < final(self).total()
                    &&& item == final(self).produced()[id as int]
                    &&& forall|j: nat|
                        final(self).available(j) <==> ((old(self).available(j) || old(
                            self,
                        ).total() <= j < final(self).total()) && j != id)
                },
                Ok(Async::NotReady) => {
                    &&& !(drain.end is Failed)
                    &&& !final(self).closed()
                    &&& id >= final(self).total()
                    &&& forall|j: nat|
                        final(self).available(j) <==> (old(self).available(j) || old(
                            self,
                        ).total() <= j < final(self).total())
                },
                Err(DispatchError::SourceFailed(e)) => {
                    &&& drain.end == DrainEnd::Failed(e)
                    &&& forall|j: nat|
                        final(self).available(j) <==> (old(self).available(j) || old(
                            self,
                        ).total() <= j < final(self).total())
                },
                Err(DispatchError::ClosedWhilePending) => {
                    &&& !(drain.end is Failed)
                    &&& final(self).closed()
                    &&& id >= final(self).total()
                    &&& forall|j: nat|
                        final(self).available(j) <==> (old(self).available(j) || old(
                            self,
                        ).total() <= j < final(self).total())
                },
                Err(DispatchError::DuplicateRetrieval) => {
                    &&& !(drain.end is Failed)
                    &&& id < old(self).total()
                    &&& !old(self).available(id as nat)
                    &&& forall|j: nat|
                        final(self).available(j) <==> (old(self).available(j) || old(
                            self,
                        ).total() <= j < final(self).total())
                },
            },
    {
        if let Err(e) = self.get_from_source(drain) {
            return Err(DispatchError::SourceFailed(e));
        }
        match self.pop_if_ready(id) {
            Ok(Some(item)) => Ok(Async::Ready(item)),
            Ok(None) => {
                if self.closed {
                    Err(DispatchError::ClosedWhilePending)
                } else {
                    Ok(Async::NotReady)
                }
            },
            Err(_) => Err(DispatchError::DuplicateRetrieval),
        }
    }
}

} // verus!
