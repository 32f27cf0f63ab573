use std::collections::HashMap;

use vstd::prelude::*;

use crate::dispatcher::DispatchError;
use crate::message_with_id::MessageWithId;
use crate::poll::{Async, Drain, DrainEnd};

verus! {

broadcast use vstd::std_specs::hash::group_hash_axioms;

/// The mapping that holds after storing each drained item, in arrival order,
/// under its embedded identifier. A later item with the same identifier
/// replaces an earlier one.
pub open spec fn stored_after<T: MessageWithId<Id = u64>>(m: Map<u64, T>, items: Seq<T>) -> Map<
    u64,
    T,
>
    decreases items.len(),
{
    if items.len() == 0 {
        m
    } else {
        stored_after(m.insert(items[0].spec_id(), items[0]), items.drop_first())
    }
}

/// Storing one more item at the end of the batch is one more insertion.
pub proof fn lemma_stored_after_snoc<T: MessageWithId<Id = u64>>(
    m: Map<u64, T>,
    items: Seq<T>,
    item: T,
)
    ensures
        stored_after(m, items.push(item)) == stored_after(m, items).insert(item.spec_id(), item),
    decreases items.len(),
{
    if items.len() == 0 {
        assert(items.push(item)[0] == item);
        assert(items.push(item).drop_first() =~= items);
        assert(stored_after(m, items.push(item)) == stored_after(
            m.insert(item.spec_id(), item),
            items,
        ));
        assert(stored_after(m.insert(item.spec_id(), item), items) == m.insert(
            item.spec_id(),
            item,
        ));
        assert(stored_after(m, items) == m);
    } else {
        assert(items.push(item)[0] == items[0]);
        assert(items.push(item).drop_first() =~= items.drop_first().push(item));
        assert(stored_after(m, items.push(item)) == stored_after(
            m.insert(items[0].spec_id(), items[0]),
            items.drop_first().push(item),
        ));
        lemma_stored_after_snoc(m.insert(items[0].spec_id(), items[0]), items.drop_first(), item);
        assert(stored_after(m, items) == stored_after(
            m.insert(items[0].spec_id(), items[0]),
            items.drop_first(),
        ));
    }
}

/// Law: whatever order responses arrive in, what is stored under an id is a
/// response that carries exactly that id, provided the store already kept
/// that invariant.
pub proof fn lemma_stored_matches_id<T: MessageWithId<Id = u64>>(
    m: Map<u64, T>,
    items: Seq<T>,
    id: u64,
)
    requires
        forall|k: u64| m.dom().contains(k) ==> (#[trigger] m[k]).spec_id() == k,
    ensures
        stored_after(m, items).dom().contains(id) ==> stored_after(m, items)[id].spec_id() == id,
    decreases items.len(),
{
    if items.len() > 0 {
        lemma_stored_matches_id(m.insert(items[0].spec_id(), items[0]), items.drop_first(), id);
    }
}

/// Multiplex-mode dispatcher: the caller supplies the id it is waiting for
/// (taken from its request), and each inbound item is stored under the
/// identifier embedded in the item itself, so responses may arrive in any
/// order. The mapping only holds ids whose item has arrived and was not yet
/// retrieved.
pub struct MultiplexDispatcher<T> {
    queue: HashMap<u64, T>,
    closed: bool,
}

impl<T: MessageWithId<Id = u64>> MultiplexDispatcher<T> {
    /// The items that have arrived and were not yet retrieved, keyed by their
    /// embedded identifier.
    pub closed spec fn pending(&self) -> Map<u64, T> {
        self.queue@
    }

    /// Whether the shared source has reported end-of-stream.
    pub closed spec fn closed(&self) -> bool {
        self.closed
    }

    pub closed spec fn wf(&self) -> bool {
        forall|k: u64|
            self.queue@.dom().contains(k) ==> (#[trigger] self.queue@[k]).spec_id() == k
    }

    pub fn new() -> (r: Self)
        ensures
            r.wf(),
            r.pending() == Map::<u64, T>::empty(),
            !r.closed(),
    {
        MultiplexDispatcher { queue: HashMap::new(), closed: false }
    }

    /// Absorb everything one exclusive drain of the shared source yielded:
    /// store every drained item under its own embedded identifier. A source
    /// failure is reported to this caller alone; the items drained before it
    /// remain stored for their waiters.
    pub fn get_from_source<E>(&mut self, drain: Drain<T, E>) -> (r: Result<(), E>)
        requires
            old(self).wf(),
        ensures
            final(self).wf(),
            final(self).pending() == stored_after(old(self).pending(), drain.items@),
            final(self).closed() == (old(self).closed() || drain.end is Closed),
            match drain.end {
                DrainEnd::Failed(e) => r == Err::<(), E>(e),
                _ => r == Ok::<(), E>(()),
            },
    {
        let Drain { mut items, end } = drain;
        let ghost all_items: Seq<T> = items@;
        let ghost mut processed: Seq<T> = Seq::empty();
        while items.len() > 0
            invariant
                self.wf(),
                self.closed == old(self).closed,
                all_items == processed + items@,
                self.queue@ == stored_after(old(self).pending(), processed),
            decreases items@.len(),
        {
            let ghost prev_items = items@;
            let item = items.remove(0);
            let ghost stored_item = item;
            let id = item.id();
            self.queue.insert(id, item);
            proof {
                lemma_stored_after_snoc(old(self).pending(), processed, stored_item);
                processed = processed.push(stored_item);
                assert(all_items =~= processed + items@);
            }
        }
        proof {
            assert(processed =~= all_items);
        }
        match end {
            DrainEnd::Pending => Ok(()),
            DrainEnd::Closed => {
                self.closed = true;
                Ok(())
            },
            DrainEnd::Failed(e) => Err(e),
        }
    }

    /// Retrieve the item stored under this id, if it has arrived, removing it
    /// so the id is answered exactly once.
    pub fn remove_if_ready(&mut self, id: u64) -> (r: Option<T>)
        requires
            old(self).wf(),
        ensures
            final(self).wf(),
            final(self).closed() == old(self).closed(),
            match r {
                Some(item) => {
                    &&& old(self).pending().dom().contains(id)
                    &&& item == old(self).pending()[id]
                    &&& item.spec_id() == id
                    &&& final(self).pending() == old(self).pending().remove(id)
                },
                None => {
                    &&& !old(self).pending().dom().contains(id)
                    &&& final(self).pending() == old(self).pending()
                },
            },
    {
        self.queue.remove(&id)
    }

    /// One full dispatcher activation on behalf of the caller waiting for
    /// `id`: absorb what the caller's drain of the shared source yielded (on
    /// behalf of every waiting id), then resolve `id` if its item is now
    /// present. Whatever order responses arrived in, the item returned for
    /// `id` is the one whose embedded identifier equals `id`. A caller whose
    /// id can never be answered because the source closed is told so instead
    /// of pending forever.
    pub fn poll<E>(&mut self, id: u64, drain: Drain<T, E>) -> (r: Result<Async<T>, DispatchError<E>>)
        requires
            old(self).wf(),
        ensures
            final(self).wf(),
            final(self).closed() == (old(self).closed() || drain.end is Closed),
            match r {
                Ok(Async::Ready(item)) => {
                    &&& !(drain.end is Failed)
                    &&& stored_after(old(self).pending(), drain.items@).dom().contains(id)
                    &&& item == stored_after(old(self).pending(), drain.items@)[id]
                    &&& item.spec_id() == id
                    &&& final(self).pending() == stored_after(
                        old(self).pending(),
                        drain.items@,
                    ).remove(id)
                },
                Ok(Async::NotReady) => {
                    &&& !(drain.end is Failed)
                    &&& !final(self).closed()
                    &&& !stored_after(old(self).pending(), drain.items@).dom().contains(id)
                    &&& final(self).pending() == stored_after(old(self).pending(), drain.items@)
                },
                Err(DispatchError::SourceFailed(e)) => {
                    &&& drain.end == DrainEnd::Failed(e)
                    &&& final(self).pending() == stored_after(old(self).pending(), drain.items@)
                },
                Err(DispatchError::ClosedWhilePending) => {
                    &&& !(drain.end is Failed)
                    &&& final(self).closed()
                    &&& !stored_after(old(self).pending(), drain.items@).dom().contains(id)
                    &&& final(self).pending() == stored_after(old(self).pending(), drain.items@)
                },
                Err(DispatchError::DuplicateRetrieval) => false,
            },
    {
        if let Err(e) = self.get_from_source(drain) {
            return Err(DispatchError::SourceFailed(e));
        }
        match self.remove_if_ready(id) {
            Some(item) => Ok(Async::Ready(item)),
            None => {
                if self.closed {
                    Err(DispatchError::ClosedWhilePending)
                } else {
                    Ok(Async::NotReady)
                }
            },
        }
    }
}

} // verus!
