use vstd::prelude::*;

use crate::poll::Async;
use crate::response_queue::ResponseQueue;
use crate::server_error::ServerError;
use crate::stream_of_future_results::{emits, lemma_emits_snoc, StreamOfFutureResults};

verus! {

/// Per-connection orchestration core. Requests are registered as in-flight
/// service invocations in a completion collection; completed responses are
/// drained from the collection into an outgoing queue, which closes exactly
/// when the input has ended and every invocation has been emitted; a sender
/// task drains the queue towards the connection.
///
/// With a submission-ordered collection this is a pipeline server (responses
/// leave in request-arrival order); with a completion-ordered collection it
/// is a multiplex server (responses leave as soon as they are done).
pub struct GenericServer<T, H> {
    active_requests: H,
    response_queue: ResponseQueue<T>,
    no_more_requests: bool,
}

impl<T, H: StreamOfFutureResults<T>> GenericServer<T, H> {
    /// The completion collection of in-flight invocations.
    pub closed spec fn completions(&self) -> H {
        self.active_requests
    }

    /// Every response ever accepted into the outgoing queue, in queue order.
    pub closed spec fn sent(&self) -> Seq<T> {
        self.response_queue.sent()
    }

    /// Accepted responses the sender task has not yet taken out.
    pub closed spec fn queued(&self) -> Seq<T> {
        self.response_queue.queued()
    }

    /// Whether the outgoing queue refuses further responses.
    pub closed spec fn queue_closed(&self) -> bool {
        self.response_queue.closed()
    }

    /// Whether the incoming request stream has reported its end.
    pub closed spec fn input_ended(&self) -> bool {
        self.no_more_requests
    }

    pub closed spec fn wf(&self) -> bool {
        self.active_requests.wf()
    }

    /// The server is done: input ended, nothing in flight, the outgoing
    /// queue closed and fully flushed.
    pub open spec fn is_finished(&self) -> bool {
        &&& self.input_ended()
        &&& self.completions().is_ended()
        &&& self.queue_closed()
        &&& self.queued().len() == 0
    }

    pub fn new() -> (r: Self)
        ensures
            r.wf(),
            r.completions().submitted() == 0,
            r.completions().is_ended(),
            r.sent() == Seq::<T>::empty(),
            r.queued() == Seq::<T>::empty(),
            !r.queue_closed(),
            !r.input_ended(),
    {
        GenericServer {
            active_requests: H::new(),
            response_queue: ResponseQueue::new(),
            no_more_requests: false,
        }
    }

    /// Register every request that arrived during this activation, in
    /// arrival order, handing back their submission tokens; record the end
    /// of the input stream once it is reached.
    pub fn poll_requests(&mut self, arrived: usize, input_ended: bool) -> (tokens: Vec<usize>)
        requires
            old(self).wf(),
            old(self).completions().submitted() + arrived <= usize::MAX,
        ensures
            final(self).wf(),
            tokens@.len() == arrived,
            forall|i: int|
                0 <= i < arrived ==> tokens@[i] as nat == old(self).completions().submitted() + i,
            final(self).completions().submitted() == old(self).completions().submitted() + arrived,
            final(self).input_ended() == (old(self).input_ended() || input_ended),
            final(self).sent() == old(self).sent(),
            final(self).queued() == old(self).queued(),
            final(self).queue_closed() == old(self).queue_closed(),
            arrived > 0 ==> !final(self).completions().is_ended(),
            arrived == 0 ==> final(self).completions() == old(self).completions(),
    {
        let mut tokens: Vec<usize> = Vec::new();
        let mut i: usize = 0;
        while i < arrived
            invariant
                i <= arrived,
                self.active_requests.wf(),
                self.response_queue == old(self).response_queue,
                self.no_more_requests == old(self).no_more_requests,
                old(self).completions().submitted() + arrived <= usize::MAX,
                self.active_requests.submitted() == old(self).completions().submitted() + i,
                tokens@.len() == i,
                forall|k: int|
                    0 <= k < i ==> tokens@[k] as nat == old(self).completions().submitted() + k,
                i > 0 ==> !self.active_requests.is_ended(),
                i == 0 ==> self.active_requests == old(self).active_requests,
            decreases arrived - i,
        {
            let token = self.active_requests.push();
            tokens.push(token);
            i = i + 1;
        }
        if input_ended {
            self.no_more_requests = true;
        }
        tokens
    }

    /// How many requests were registered so far.
    pub fn submitted_count(&self) -> (r: usize)
        requires
            self.wf(),
        ensures
            r as nat == self.completions().submitted(),
    {
        self.active_requests.submitted_count()
    }

    /// Whether a response may be recorded now for this submission token.
    pub fn is_completable(&self, token: usize) -> (r: bool)
        requires
            self.wf(),
        ensures
            r == self.completions().can_complete(token),
    {
        self.active_requests.is_completable(token)
    }

    /// Record the response one service invocation produced.
    pub fn complete(&mut self, token: usize, response: T)
        requires
            old(self).wf(),
            old(self).completions().can_complete(token),
        ensures
            final(self).wf(),
            old(self).completions().complete_rel(final(self).completions(), token, response),
            final(self).completions().submitted() == old(self).completions().submitted(),
            final(self).input_ended() == old(self).input_ended(),
            final(self).sent() == old(self).sent(),
            final(self).queued() == old(self).queued(),
            final(self).queue_closed() == old(self).queue_closed(),
    {
        self.active_requests.complete(token, response);
    }

    /// Drain every completed response that is due now into the outgoing
    /// queue, in the order the completion collection emits them; close the
    /// queue once the collection reports its end and the input has also
    /// ended. A response that cannot be handed over because the queue's
    /// consumer is gone is reported as a closed connection.
    pub fn poll_responses<I, O, S>(&mut self) -> (r: Result<(), ServerError<I, O, S>>)
        requires
            old(self).wf(),
        ensures
            final(self).wf(),
            final(self).input_ended() == old(self).input_ended(),
            final(self).completions().submitted() == old(self).completions().submitted(),
            match r {
                Ok(()) => {
                    &&& exists|values: Seq<T>|
                        {
                            &&& #[trigger] emits(
                                old(self).completions(),
                                values,
                                final(self).completions(),
                            )
                            &&& final(self).sent() == old(self).sent() + values
                            &&& final(self).queued() == old(self).queued() + values
                        }
                    &&& final(self).queue_closed() == (old(self).queue_closed()
                        || (final(self).completions().is_ended() && final(self).input_ended()))
                    &&& (final(self).completions().is_ended()
                        || final(self).completions().ready_now() is None)
                },
                Err(e) => {
                    &&& e == ServerError::<I, O, S>::ConnectionClosed
                    &&& old(self).queue_closed()
                    &&& final(self).queue_closed()
                    &&& final(self).sent() == old(self).sent()
                    &&& final(self).queued() == old(self).queued()
                    &&& exists|lost: T|
                        emits(old(self).completions(), seq![lost], final(self).completions())
                },
            },
    {
        let ghost mut values: Seq<T> = Seq::empty();
        loop
            invariant_except_break
                self.response_queue.closed() == old(self).response_queue.closed(),
            invariant
                self.active_requests.wf(),
                self.no_more_requests == old(self).no_more_requests,
                self.active_requests.submitted() == old(self).completions().submitted(),
                emits(old(self).completions(), values, self.active_requests),
                self.response_queue.sent() == old(self).sent() + values,
                self.response_queue.queued() == old(self).queued() + values,
                values.len() > 0 ==> !old(self).response_queue.closed(),
            ensures
                self.response_queue.closed() == (old(self).response_queue.closed() || (
                self.active_requests.is_ended() && self.no_more_requests)),
                self.active_requests.is_ended() || self.active_requests.ready_now() is None,
            decreases self.active_requests.remaining(),
        {
            let ghost pre = self.active_requests;
            let next_response = self.active_requests.poll();
            match next_response {
                Async::Ready(Some(response)) => {
                    proof {
                        lemma_emits_snoc(
                            old(self).completions(),
                            values,
                            pre,
                            response,
                            self.active_requests,
                        );
                    }
                    match self.response_queue.push(response) {
                        Ok(()) => {
                            proof {
                                values = values.push(response);
                            }
                        },
                        Err(lost) => {
                            proof {
                                assert(values =~= Seq::<T>::empty());
                                assert(values.push(lost) =~= seq![lost]);
                            }
                            return Err(ServerError::ConnectionClosed);
                        },
                    }
                },
                Async::Ready(None) => {
                    if self.no_more_requests {
                        self.response_queue.close();
                    }
                    break ;
                },
                Async::NotReady => {
                    break ;
                },
            }
        }
        Ok(())
    }

    /// Hand the sender task the oldest queued response still to be written.
    pub fn next_response(&mut self) -> (r: Option<T>)
        requires
            old(self).wf(),
        ensures
            final(self).wf(),
            final(self).completions() == old(self).completions(),
            final(self).input_ended() == old(self).input_ended(),
            final(self).sent() == old(self).sent(),
            final(self).queue_closed() == old(self).queue_closed(),
            match r {
                Some(response) => {
                    &&& old(self).queued().len() > 0
                    &&& response == old(self).queued()[0]
                    &&& final(self).queued() == old(self).queued().drop_first()
                },
                None => {
                    &&& old(self).queued().len() == 0
                    &&& final(self).queued() == old(self).queued()
                },
            },
    {
        self.response_queue.pop()
    }

    /// Whether the server is done: input ended, nothing in flight, the
    /// outgoing queue closed and fully flushed.
    pub fn is_finished_now(&self) -> (r: bool)
        requires
            self.wf(),
        ensures
            r == self.is_finished(),
    {
        self.no_more_requests && self.active_requests.has_ended() && self.response_queue.is_closed()
            && self.response_queue.is_flushed()
    }

    /// Whether the sender task is done: the outgoing queue is closed and
    /// everything accepted into it has been taken out.
    pub fn poll_sender(&self) -> (r: Async<()>)
        ensures
            match r {
                Async::Ready(_) => self.queue_closed() && self.queued().len() == 0,
                Async::NotReady => !(self.queue_closed() && self.queued().len() == 0),
            },
    {
        if self.response_queue.is_closed() && self.response_queue.is_flushed() {
            Async::Ready(())
        } else {
            Async::NotReady
        }
    }
}

} // verus!
