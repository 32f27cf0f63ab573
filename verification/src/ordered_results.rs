use vstd::prelude::*;

use crate::poll::Async;
use crate::stream_of_future_results::{emits, StreamOfFutureResults};

verus! {

/// Submission-ordered completion collection: results are emitted strictly in
/// the order their operations were pushed, even when they were recorded out
/// of order. A result recorded before its turn is held back until every
/// earlier operation has been emitted.
pub struct OrderedResults<T> {
    emit_next: usize,
    window: Vec<Option<T>>,
}

impl<T> OrderedResults<T> {
    /// The submission token the next emission answers.
    pub closed spec fn emit_base(&self) -> nat {
        self.emit_next as nat
    }

    /// The held results, by submission token starting at `emit_base`: a
    /// cleared slot is an operation still in flight.
    pub closed spec fn slots(&self) -> Seq<Option<T>> {
        self.window@
    }
}

impl<T> StreamOfFutureResults<T> for OrderedResults<T> {
    closed spec fn wf(&self) -> bool {
        self.emit_next + self.window@.len() <= usize::MAX
    }

    closed spec fn submitted(&self) -> nat {
        (self.emit_next + self.window@.len()) as nat
    }

    closed spec fn can_complete(&self, token: usize) -> bool {
        &&& self.emit_next <= token < self.submitted()
        &&& self.window@[token - self.emit_next] is None
    }

    closed spec fn push_rel(&self, post: Self) -> bool {
        &&& post.emit_next == self.emit_next
        &&& post.window@ == self.window@.push(None)
    }

    closed spec fn complete_rel(&self, post: Self, token: usize, value: T) -> bool {
        &&& post.emit_next == self.emit_next
        &&& post.window@ == self.window@.update(token - self.emit_next, Some(value))
    }

    closed spec fn ready_now(&self) -> Option<T> {
        if self.window@.len() > 0 && self.window@[0] is Some {
            Some(self.window@[0]->0)
        } else {
            None
        }
    }

    closed spec fn step_rel(&self, post: Self) -> bool {
        &&& post.emit_next == self.emit_next + 1
        &&& post.window@ == self.window@.drop_first()
    }

    closed spec fn is_ended(&self) -> bool {
        self.window@.len() == 0
    }

    closed spec fn remaining(&self) -> nat {
        self.window@.len()
    }

    fn new() -> (r: Self) {
        OrderedResults { emit_next: 0, window: Vec::new() }
    }

    fn push(&mut self) -> (token: usize) {
        let token = self.emit_next + self.window.len();
        self.window.push(None);
        token
    }

    fn complete(&mut self, token: usize, value: T) {
        let position = token - self.emit_next;
        self.window.remove(position);
        self.window.insert(position, Some(value));
        proof {
            assert(self.window@ =~= old(self).window@.update(position as int, Some(value)));
        }
    }

    fn submitted_count(&self) -> (r: usize) {
        self.emit_next + self.window.len()
    }

    fn has_ended(&self) -> (r: bool) {
        self.window.len() == 0
    }

    fn is_completable(&self, token: usize) -> (r: bool) {
        token >= self.emit_next && token - self.emit_next < self.window.len()
            && self.window[token - self.emit_next].is_none()
    }

    fn poll(&mut self) -> (r: Async<Option<T>>) {
        if self.window.len() == 0 {
            Async::Ready(None)
        } else if self.window[0].is_some() {
            let front = self.window.remove(0);
            self.emit_next = self.emit_next + 1;
            match front {
                Some(value) => Async::Ready(Some(value)),
                None => vstd::pervasive::unreached(),
            }
        } else {
            Async::NotReady
        }
    }
}

/// Law: when a run of emissions ends with the collection reporting its end,
/// no held result was dropped or reordered: the emitted results are exactly
/// the held results, one per submission, in submission order.
pub proof fn lemma_ordered_emits_everything<T>(
    before: OrderedResults<T>,
    values: Seq<T>,
    after: OrderedResults<T>,
)
    requires
        emits(before, values, after),
        after.is_ended(),
    ensures
        values.len() == before.slots().len(),
        forall|i: int| 0 <= i < values.len() ==> before.slots()[i] == Some(values[i]),
        after.emit_base() == before.emit_base() + values.len(),
    decreases values.len(),
{
    if values.len() == 0 {
        assert(after == before);
    } else {
        let mid = choose|mid: OrderedResults<T>|
            #[trigger] before.step_rel(mid) && emits(mid, values.drop_first(), after);
        lemma_ordered_emits_everything(mid, values.drop_first(), after);
        assert(before.slots()[0] == Some(values[0]));
        assert forall|i: int| 1 <= i < values.len() implies before.slots()[i] == Some(
            values[i],
        ) by {
            assert(mid.slots()[i - 1] == Some(values.drop_first()[i - 1]));
        }
    }
}

} // verus!
