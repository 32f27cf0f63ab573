use vstd::prelude::*;

use crate::poll::Async;
use crate::stream_of_future_results::{emits, StreamOfFutureResults};

verus! {

/// Completion-ordered collection: results are emitted as soon as they are
/// recorded, interleaved by finish time; the order operations were pushed in
/// carries no meaning here.
pub struct UnorderedResults<T> {
    count: usize,
    in_flight: usize,
    ready: Vec<T>,
}

impl<T> UnorderedResults<T> {
    /// How many operations are still in flight.
    pub closed spec fn pending(&self) -> nat {
        self.in_flight as nat
    }

    /// The recorded results not yet emitted, oldest first.
    pub closed spec fn buffered(&self) -> Seq<T> {
        self.ready@
    }
}

impl<T> StreamOfFutureResults<T> for UnorderedResults<T> {
    closed spec fn wf(&self) -> bool {
        self.in_flight <= self.count
    }

    closed spec fn submitted(&self) -> nat {
        self.count as nat
    }

    closed spec fn can_complete(&self, token: usize) -> bool {
        self.in_flight > 0
    }

    closed spec fn push_rel(&self, post: Self) -> bool {
        &&& post.count == self.count + 1
        &&& post.in_flight == self.in_flight + 1
        &&& post.ready@ == self.ready@
    }

    closed spec fn complete_rel(&self, post: Self, token: usize, value: T) -> bool {
        &&& post.count == self.count
        &&& post.in_flight == self.in_flight - 1
        &&& post.ready@ == self.ready@.push(value)
    }

    closed spec fn ready_now(&self) -> Option<T> {
        if self.ready@.len() > 0 {
            Some(self.ready@[0])
        } else {
            None
        }
    }

    closed spec fn step_rel(&self, post: Self) -> bool {
        &&& post.count == self.count
        &&& post.in_flight == self.in_flight
        &&& post.ready@ == self.ready@.drop_first()
    }

    closed spec fn is_ended(&self) -> bool {
        self.in_flight == 0 && self.ready@.len() == 0
    }

    closed spec fn remaining(&self) -> nat {
        self.ready@.len()
    }

    fn new() -> (r: Self) {
        UnorderedResults { count: 0, in_flight: 0, ready: Vec::new() }
    }

    fn push(&mut self) -> (token: usize) {
        let token = self.count;
        self.count = self.count + 1;
        self.in_flight = self.in_flight + 1;
        token
    }

    fn complete(&mut self, token: usize, value: T) {
        self.in_flight = self.in_flight - 1;
        self.ready.push(value);
    }

    fn submitted_count(&self) -> (r: usize) {
        self.count
    }

    fn has_ended(&self) -> (r: bool) {
        self.in_flight == 0 && self.ready.len() == 0
    }

    fn is_completable(&self, token: usize) -> (r: bool) {
        self.in_flight > 0
    }

    fn poll(&mut self) -> (r: Async<Option<T>>) {
        if self.ready.len() > 0 {
            Async::Ready(Some(self.ready.remove(0)))
        } else if self.in_flight == 0 {
            Async::Ready(None)
        } else {
            Async::NotReady
        }
    }
}

/// Law: when a run of emissions ends with the collection reporting its end,
/// nothing in flight remained and no recorded result was dropped: the emitted
/// results are exactly the recorded ones, in the order they were recorded.
pub proof fn lemma_unordered_emits_everything<T>(
    before: UnorderedResults<T>,
    values: Seq<T>,
    after: UnorderedResults<T>,
)
    requires
        emits(before, values, after),
        after.is_ended(),
    ensures
        before.pending() == 0,
        values == before.buffered(),
    decreases values.len(),
{
    if values.len() == 0 {
        assert(after == before);
        assert(values =~= before.buffered());
    } else {
        let mid = choose|mid: UnorderedResults<T>|
            #[trigger] before.step_rel(mid) && emits(mid, values.drop_first(), after);
        lemma_unordered_emits_everything(mid, values.drop_first(), after);
        assert(values[0] == before.buffered()[0]);
        assert forall|i: int| 1 <= i < values.len() implies values[i] == before.buffered()[i] by {
            assert(values[i] == values.drop_first()[i - 1]);
            assert(values.drop_first()[i - 1] == mid.buffered()[i - 1]);
            assert(mid.buffered()[i - 1] == before.buffered().drop_first()[i - 1]);
        }
        assert(values =~= before.buffered());
    }
}

} // verus!
