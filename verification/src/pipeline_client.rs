use vstd::prelude::*;

use crate::client_error::ClientError;
use crate::dispatcher::DispatchError;
use crate::fifo_dispatcher::FifoDispatcher;
use crate::poll::{Async, Drain};
use crate::request_sender::RequestSender;

verus! {

/// Client handle for pipeline mode: requests carry no identifier; the `n`-th
/// request sent is answered by the `n`-th response the connection produces.
/// A call first drives its request through the shared sink; the moment the
/// send completes, the call is assigned the next receiver id, so id order
/// matches send order.
pub struct PipelineClient<T> {
    pub response_dispatcher: FifoDispatcher<T>,
}

impl<T> PipelineClient<T> {
    pub fn new() -> (r: Self)
        ensures
            r.response_dispatcher.wf(),
            r.response_dispatcher.total() == 0,
            r.response_dispatcher.spawned() == 0,
            !r.response_dispatcher.closed(),
            forall|j: nat| !r.response_dispatcher.available(j),
    {
        PipelineClient { response_dispatcher: FifoDispatcher::new() }
    }

    /// Begin one exchange: the request must fully leave the sender before a
    /// response can be awaited, so all this hands back is the sender.
    pub fn call<R>(&self, request: R) -> (sender: RequestSender<R, ()>)
        ensures
            sender.request() == Some(request),
            !sender.completed(),
    {
        RequestSender::new(request, ())
    }

    /// The moment a call's send completes, assign it the next receiver id:
    /// this couples id order to send order, which is what correlates the
    /// `n`-th request with the `n`-th response.
    pub fn finish_send<R>(&mut self, sender: &mut RequestSender<R, ()>) -> (id: usize)
        requires
            old(self).response_dispatcher.wf(),
            old(self).response_dispatcher.spawned() < usize::MAX,
            old(sender).sent(),
            !old(sender).completed(),
        ensures
            final(self).response_dispatcher.wf(),
            final(sender).completed(),
            id as nat == old(self).response_dispatcher.spawned(),
            final(self).response_dispatcher.spawned() == old(self).response_dispatcher.spawned()
                + 1,
            final(self).response_dispatcher.produced() == old(self).response_dispatcher.produced(),
            final(self).response_dispatcher.closed() == old(self).response_dispatcher.closed(),
            forall|j: nat|
                final(self).response_dispatcher.available(j) <==> old(
                    self,
                ).response_dispatcher.available(j),
    {
        sender.finish();
        self.response_dispatcher.spawn_receiver()
    }

    /// Poll for the response with this receiver id, absorbing whatever this
    /// activation's drain of the shared source yielded; a failure to receive
    /// is tagged distinctly from a send failure.
    pub fn poll_response<E, O>(&mut self, id: usize, drain: Drain<T, E>) -> (r: Result<
        Async<T>,
        ClientError<DispatchError<E>, O>,
    >)
        requires
            old(self).response_dispatcher.wf(),
            old(self).response_dispatcher.total() + drain.items@.len() <= usize::MAX,
        ensures
            final(self).response_dispatcher.wf(),
            final(self).response_dispatcher.produced() == old(self).response_dispatcher.produced()
                + drain.items@,
            final(self).response_dispatcher.spawned() == old(self).response_dispatcher.spawned(),
            final(self).response_dispatcher.closed() == (old(self).response_dispatcher.closed()
                || drain.end is Closed),
            match r {
                Ok(Async::Ready(item)) => {
                    &&& id < final(self).response_dispatcher.total()
                    &&& item == final(self).response_dispatcher.produced()[id as int]
                    &&& !final(self).response_dispatcher.available(id as nat)
                },
                Ok(Async::NotReady) => {
                    &&& !final(self).response_dispatcher.closed()
                    &&& id >= final(self).response_dispatcher.total()
                },
                Err(ClientError::ReceiveError(e)) => match e {
                    DispatchError::SourceFailed(source_error) => drain.end
                        == crate::poll::DrainEnd::Failed(source_error),
                    DispatchError::ClosedWhilePending => {
                        &&& final(self).response_dispatcher.closed()
                        &&& id >= final(self).response_dispatcher.total()
                    },
                    DispatchError::DuplicateRetrieval => {
                        &&& id < old(self).response_dispatcher.total()
                        &&& !old(self).response_dispatcher.available(id as nat)
                    },
                },
                Err(ClientError::SendError(_)) => false,
            },
    {
        match self.response_dispatcher.poll(id, drain) {
            Ok(item) => Ok(item),
            Err(e) => Err(ClientError::ReceiveError(e)),
        }
    }
}

} // verus!
