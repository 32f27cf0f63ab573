use vstd::prelude::*;

use crate::client_error::ClientError;
use crate::dispatcher::DispatchError;
use crate::message_with_id::MessageWithId;
use crate::multiplex_dispatcher::{stored_after, MultiplexDispatcher};
use crate::poll::{Async, Drain, DrainEnd};
use crate::request_sender::RequestSender;

verus! {

/// Client handle for multiplex mode: each request carries its correlation id,
/// responses may arrive in any order, and a caller is answered by exactly the
/// response whose embedded id matches its own request's id. Id allocation
/// happens at the moment of sending: the seed a send yields is the id the
/// receiver then waits for.
pub struct MultiplexClient<T> {
    pub response_dispatcher: MultiplexDispatcher<T>,
}

impl<T: MessageWithId<Id = u64>> MultiplexClient<T> {
    pub fn new() -> (r: Self)
        ensures
            r.response_dispatcher.wf(),
            r.response_dispatcher.pending() == Map::<u64, T>::empty(),
            !r.response_dispatcher.closed(),
    {
        MultiplexClient { response_dispatcher: MultiplexDispatcher::new() }
    }

    /// Begin one exchange: the id embedded in the request is the seed the
    /// send will yield, and the key the response will be stored under.
    pub fn call<R: MessageWithId<Id = u64>>(&self, request: R) -> (sender: RequestSender<R, u64>)
        ensures
            sender.request() == Some(request),
            sender.seed() == Some(request.spec_id()),
            !sender.completed(),
    {
        let id = request.id();
        RequestSender::new(request, id)
    }

    /// The moment a call's send completes, hand its caller the id to wait
    /// for: the one that was embedded in the request.
    pub fn finish_send<R>(&self, sender: &mut RequestSender<R, u64>) -> (id: u64)
        requires
            old(sender).sent(),
            !old(sender).completed(),
        ensures
            final(sender).completed(),
            Some(id) == old(sender).seed(),
    {
        sender.finish()
    }

    /// Poll for the response whose embedded id matches `id`, absorbing
    /// whatever this activation's drain of the shared source yielded; a
    /// failure to receive is tagged distinctly from a send failure.
    pub fn poll_response<E, O>(&mut self, id: u64, drain: Drain<T, E>) -> (r: Result<
        Async<T>,
        ClientError<DispatchError<E>, O>,
    >)
        requires
            old(self).response_dispatcher.wf(),
        ensures
            final(self).response_dispatcher.wf(),
            final(self).response_dispatcher.closed() == (old(self).response_dispatcher.closed()
                || drain.end is Closed),
            match r {
                Ok(Async::Ready(item)) => {
                    &&& item.spec_id() == id
                    &&& stored_after(
                        old(self).response_dispatcher.pending(),
                        drain.items@,
                    ).dom().contains(id)
                    &&& item == stored_after(
                        old(self).response_dispatcher.pending(),
                        drain.items@,
                    )[id]
                    &&& final(self).response_dispatcher.pending() == stored_after(
                        old(self).response_dispatcher.pending(),
                        drain.items@,
                    ).remove(id)
                },
                Ok(Async::NotReady) => {
                    &&& !final(self).response_dispatcher.closed()
                    &&& !stored_after(
                        old(self).response_dispatcher.pending(),
                        drain.items@,
                    ).dom().contains(id)
                    &&& final(self).response_dispatcher.pending() == stored_after(
                        old(self).response_dispatcher.pending(),
                        drain.items@,
                    )
                },
                Err(ClientError::ReceiveError(e)) => match e {
                    DispatchError::SourceFailed(source_error) => drain.end == DrainEnd::Failed(
                        source_error,
                    ),
                    DispatchError::ClosedWhilePending => {
                        &&& final(self).response_dispatcher.closed()
                        &&& !stored_after(
                            old(self).response_dispatcher.pending(),
                            drain.items@,
                        ).dom().contains(id)
                    },
                    DispatchError::DuplicateRetrieval => false,
                },
                Err(ClientError::SendError(_)) => false,
            },
    {
        match self.response_dispatcher.poll(id, drain) {
            Ok(item) => Ok(item),
            Err(e) => Err(ClientError::ReceiveError(e)),
        }
    }
}

} // verus!
