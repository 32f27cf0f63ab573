use vstd::prelude::*;

verus! {

/// Why a retrieval could not return an item. Asking again for an id that was
/// already consumed is a contract violation and is reported distinctly, never
/// answered with stale data.
#[derive(Debug, Clone, Copy, PartialEq, Eq)]
pub enum RetrieveError {
    /// No item has been produced at this id yet.
    NotYetAvailable,
    /// The item at this id was already retrieved once.
    DuplicateRetrieval,
}

/// What retrieving `id` yields from a buffer that produced `produced` and
/// still has the ids in `available` unretrieved: the item produced at `id`
/// exactly when `id` is available; a distinct duplicate-retrieval failure
/// when `id` was produced but is no longer available; and "nothing there yet"
/// when `id` was never produced.
pub open spec fn retrieval_outcome<T>(produced: Seq<T>, available: Set<nat>, id: nat) -> Result<
    T,
    RetrieveError,
> {
    if available.contains(id) {
        Ok(produced[id as int])
    } else if id < produced.len() {
        Err(RetrieveError::DuplicateRetrieval)
    } else {
        Err(RetrieveError::NotYetAvailable)
    }
}

/// Law: each produced item is retrieved at most once, whatever order
/// retrievals happen in. A retrieval of an available `id` yields exactly the
/// item produced at `id`; once `id` is gone, retrieving it again fails with
/// the distinct duplicate-retrieval error; and retrieving other ids first
/// changes nothing about what `id` yields.
pub proof fn lemma_pop_exactly_once<T>(produced: Seq<T>, available: Set<nat>, id: nat)
    requires
        forall|j: nat| available.contains(j) ==> j < produced.len(),
        available.contains(id),
    ensures
        retrieval_outcome(produced, available, id) == Ok::<T, RetrieveError>(produced[id as int]),
        retrieval_outcome(produced, available.remove(id), id) == Err::<T, RetrieveError>(
            RetrieveError::DuplicateRetrieval,
        ),
        forall|j: nat|
            j != id ==> retrieval_outcome(produced, #[trigger] available.remove(j), id)
                == retrieval_outcome(produced, available, id),
{
}

/// A positional buffer reconstructing strict order from a single shared
/// source. Each pushed item is assigned the next id (its position in the
/// production order); items may be retrieved out of order, each id at most
/// once. Storage spans only the window between the oldest unretrieved id and
/// the newest produced id: cleared slots at the front are dropped as soon as
/// the front becomes retrievable.
pub struct ReadyQueue<T> {
    queue: Vec<Option<T>>,
    first_id: usize,
    history: Ghost<Seq<T>>,
}

impl<T> ReadyQueue<T> {
    /// Every item ever pushed, in push order; an item's id is its index here.
    pub closed spec fn produced(&self) -> Seq<T> {
        self.history@
    }

    /// How many items were pushed so far; also the id the next push gets.
    pub open spec fn total(&self) -> nat {
        self.produced().len()
    }

    /// The lowest id whose slot is still stored.
    pub closed spec fn window_start(&self) -> nat {
        self.first_id as nat
    }

    /// The ids currently available for retrieval.
    pub open spec fn available_set(&self) -> Set<nat> {
        Set::new(|j: nat| self.available(j))
    }

    /// Whether the item with this id has been produced and not yet retrieved.
    pub closed spec fn available(&self, id: nat) -> bool {
        &&& self.window_start() <= id < self.total()
        &&& self.queue@[id as int - self.window_start() as int] is Some
    }

    pub closed spec fn wf(&self) -> bool {
        &&& self.first_id + self.queue@.len() == self.history@.len()
        &&& self.history@.len() <= usize::MAX
        &&& forall|i: int|
            0 <= i < self.queue@.len() && self.queue@[i] is Some ==> (#[trigger] self.queue@[i])->0
                == self.history@[self.first_id + i]
        &&& self.queue@.len() > 0 ==> self.queue@[0] is Some
    }

    pub fn new() -> (r: Self)
        ensures
            r.wf(),
            r.total() == 0,
            forall|j: nat| !r.available(j),
    {
        ReadyQueue { queue: Vec::new(), first_id: 0, history: Ghost(Seq::empty()) }
    }

    /// Store the next item, assign it the next id, and return how many items
    /// have been produced in total (one more than the new item's id).
    pub fn push(&mut self, item: T) -> (count: usize)
        requires
            old(self).wf(),
            old(self).total() < usize::MAX,
        ensures
            final(self).wf(),
            final(self).produced() == old(self).produced().push(item),
            count == final(self).total(),
            final(self).window_start() == old(self).window_start(),
            final(self).available(old(self).total()),
            forall|j: nat|
                j != old(self).total() ==> (final(self).available(j) <==> old(self).available(j)),
    {
        self.queue.push(Some(item));
        proof {
            self.history@ = self.history@.push(item);
        }
        self.first_id + self.queue.len()
    }

    /// Retrieve the item with the given id, at most once. Returns the item
    /// exactly when it is available; an id that was already retrieved fails
    /// with a distinct duplicate-retrieval error, and an id not produced yet
    /// reports that nothing is there, in both cases leaving the buffer as it
    /// was.
    pub fn pop(&mut self, id: usize) -> (r: Result<T, RetrieveError>)
        requires
            old(self).wf(),
        ensures
            final(self).wf(),
            final(self).produced() == old(self).produced(),
            r == retrieval_outcome(old(self).produced(), old(self).available_set(), id as nat),
            match r {
                Ok(item) => {
                    &&& old(self).available(id as nat)
                    &&& item == old(self).produced()[id as int]
                    &&& forall|j: nat|
                        final(self).available(j) <==> (old(self).available(j) && j != id)
                },
                Err(RetrieveError::DuplicateRetrieval) => {
                    &&& id < old(self).total()
                    &&& !old(self).available(id as nat)
                    &&& forall|j: nat| final(self).available(j) <==> old(self).available(j)
                },
                Err(RetrieveError::NotYetAvailable) => {
                    &&& id >= old(self).total()
                    &&& forall|j: nat| final(self).available(j) <==> old(self).available(j)
                },
            },
    {
        if id < self.first_id {
            return Err(RetrieveError::DuplicateRetrieval);
        }
        let position = id - self.first_id;
        if position >= self.queue.len() {
            return Err(RetrieveError::NotYetAvailable);
        }
        let slot = self.queue.remove(position);
        match slot {
            None => {
                self.queue.insert(position, None);
                proof {
                    assert(self.queue@ =~= old(self).queue@);
                }
                Err(RetrieveError::DuplicateRetrieval)
            },
            Some(item) => {
                if position == 0 {
                    self.first_id = self.first_id + 1;
                    self.compact();
                } else {
                    self.queue.insert(position, None);
                    proof {
                        assert(self.queue@ =~= old(self).queue@.update(
                            position as int,
                            None,
                        ));
                    }
                }
                Ok(item)
            },
        }
    }

    /// Drop cleared slots at the front of the window, so that storage keeps
    /// tracking only the gap between the oldest unretrieved id and the newest
    /// produced id.
    fn compact(&mut self)
        requires
            old(self).first_id + old(self).queue@.len() == old(self).history@.len(),
            old(self).history@.len() <= usize::MAX,
            forall|i: int|
                0 <= i < old(self).queue@.len() && old(self).queue@[i] is Some ==> (
                #[trigger] old(self).queue@[i])->0 == old(self).history@[old(self).first_id + i],
        ensures
            final(self).wf(),
            final(self).produced() == old(self).produced(),
            forall|j: nat| final(self).available(j) <==> old(self).available(j),
    {
        loop
            invariant
                self.first_id + self.queue@.len() == self.history@.len(),
                self.history@.len() <= usize::MAX,
                forall|i: int|
                    0 <= i < self.queue@.len() && self.queue@[i] is Some ==> (
                    #[trigger] self.queue@[i])->0 == self.history@[self.first_id + i],
                self.history@ == old(self).history@,
                self.first_id >= old(self).first_id,
                forall|j: nat| self.available(j) <==> old(self).available(j),
            ensures
                self.first_id + self.queue@.len() == self.history@.len(),
                self.history@ == old(self).history@,
                forall|i: int|
                    0 <= i < self.queue@.len() && self.queue@[i] is Some ==> (
                    #[trigger] self.queue@[i])->0 == self.history@[self.first_id + i],
                forall|j: nat| self.available(j) <==> old(self).available(j),
                self.queue@.len() == 0 || self.queue@[0] is Some,
            decreases self.queue@.len(),
        {
            if self.queue.len() == 0 {
                break;
            }
            let front_cleared = self.queue[0].is_none();
            if !front_cleared {
                break;
            }
            self.queue.remove(0);
            self.first_id = self.first_id + 1;
        }
    }
}

} // verus!
