use vstd::prelude::*;

use crate::poll::Async;

verus! {

/// A container of in-flight operations. An operation is registered with
/// `push` (which hands back its submission token), its result is recorded
/// with `complete`, and results are taken out with `poll`: in submission
/// order or in completion order, depending on the implementation. One
/// interface, two implementations, selected by composition.
pub trait StreamOfFutureResults<T>: Sized {
    spec fn wf(&self) -> bool;

    /// How many operations were ever pushed; also the next token handed out.
    spec fn submitted(&self) -> nat;

    /// Whether a result may be recorded for this token now.
    spec fn can_complete(&self, token: usize) -> bool;

    /// How the state before a push relates to the state after it.
    spec fn push_rel(&self, post: Self) -> bool;

    /// How the state before recording a result relates to the state after.
    spec fn complete_rel(&self, post: Self, token: usize, value: T) -> bool;

    /// The result the next poll would emit, if one is due now.
    spec fn ready_now(&self) -> Option<T>;

    /// How the state before emitting `ready_now` relates to the state after.
    spec fn step_rel(&self, post: Self) -> bool;

    /// Nothing is in flight and nothing is left to emit.
    spec fn is_ended(&self) -> bool;

    /// An upper bound on how many results can still be emitted without a new
    /// completion being recorded; each emission decreases it.
    spec fn remaining(&self) -> nat;

    fn new() -> (r: Self)
        ensures
            r.wf(),
            r.submitted() == 0,
            r.is_ended(),
            r.ready_now() is None,
    ;

    /// Register one more in-flight operation and hand back its token.
    fn push(&mut self) -> (token: usize)
        requires
            old(self).wf(),
            old(self).submitted() < usize::MAX,
        ensures
            final(self).wf(),
            token as nat == old(self).submitted(),
            final(self).submitted() == old(self).submitted() + 1,
            !final(self).is_ended(),
            old(self).push_rel(*final(self)),
    ;

    /// Record the result of the operation with this token.
    fn complete(&mut self, token: usize, value: T)
        requires
            old(self).wf(),
            old(self).can_complete(token),
        ensures
            final(self).wf(),
            final(self).submitted() == old(self).submitted(),
            old(self).complete_rel(*final(self), token, value),
    ;

    /// How many operations were ever pushed.
    fn submitted_count(&self) -> (r: usize)
        requires
            self.wf(),
        ensures
            r as nat == self.submitted(),
    ;

    /// Whether nothing is in flight and nothing is left to emit.
    fn has_ended(&self) -> (r: bool)
        requires
            self.wf(),
        ensures
            r == self.is_ended(),
    ;

    /// Whether a result may be recorded for this token now.
    fn is_completable(&self, token: usize) -> (r: bool)
        requires
            self.wf(),
        ensures
            r == self.can_complete(token),
    ;

    /// Emit the next due result; report the end once nothing is in flight
    /// and nothing is left to emit.
    fn poll(&mut self) -> (r: Async<Option<T>>)
        requires
            old(self).wf(),
        ensures
            final(self).wf(),
            final(self).submitted() == old(self).submitted(),
            match r {
                Async::Ready(Some(value)) => {
                    &&& old(self).ready_now() == Some(value)
                    &&& old(self).step_rel(*final(self))
                    &&& final(self).remaining() < old(self).remaining()
                },
                Async::Ready(None) => {
                    &&& old(self).is_ended()
                    &&& *final(self) == *old(self)
                },
                Async::NotReady => {
                    &&& old(self).ready_now() is None
                    &&& !old(self).is_ended()
                    &&& *final(self) == *old(self)
                },
            },
    ;
}

/// The collection `before` can emit exactly the results `values`, in this
/// order, one `poll` at a time, and stand as `after` afterwards.
pub open spec fn emits<T, H: StreamOfFutureResults<T>>(before: H, values: Seq<T>, after: H) -> bool
    decreases values.len(),
{
    if values.len() == 0 {
        after == before
    } else {
        &&& before.ready_now() == Some(values[0])
        &&& exists|mid: H|
            #[trigger] before.step_rel(mid) && emits(mid, values.drop_first(), after)
    }
}

/// Emitting one more result extends an emission sequence at its end.
pub proof fn lemma_emits_snoc<T, H: StreamOfFutureResults<T>>(
    before: H,
    values: Seq<T>,
    after: H,
    value: T,
    post: H,
)
    requires
        emits(before, values, after),
        after.ready_now() == Some(value),
        after.step_rel(post),
    ensures
        emits(before, values.push(value), post),
    decreases values.len(),
{
    if values.len() == 0 {
        assert(after == before);
        assert(values.push(value)[0] == value);
        assert(values.push(value).drop_first() =~= Seq::<T>::empty());
        assert(emits(post, values.push(value).drop_first(), post));
    } else {
        assert(values.push(value)[0] == values[0]);
        assert(values.push(value).drop_first() =~= values.drop_first().push(value));
        let mid = choose|mid: H|
            #[trigger] before.step_rel(mid) && emits(mid, values.drop_first(), after);
        lemma_emits_snoc(mid, values.drop_first(), after, value, post);
        assert(before.step_rel(mid) && emits(mid, values.push(value).drop_first(), post));
    }
}

} // verus!
