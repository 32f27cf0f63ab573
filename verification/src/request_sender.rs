use vstd::prelude::*;

verus! {

/// One request on its way onto the shared sink, together with the seed this
/// send will yield once the write is committed (the correlation id in
/// multiplex mode, a unit in pipeline mode).
///
/// The caller drives it: take the request to attempt a non-blocking write;
/// hand it back if the sink rejected it, so nothing is lost and the next
/// activation retries; once the sink confirms the write is committed, finish
/// the send and obtain the seed, exactly once.
pub struct RequestSender<R, S> {
    request: Option<R>,
    seed: Option<S>,
}

impl<R, S> RequestSender<R, S> {
    /// The request not yet accepted by the sink, if any.
    pub closed spec fn request(&self) -> Option<R> {
        self.request
    }

    /// The seed still to be yielded, if the send has not finished yet.
    pub closed spec fn seed(&self) -> Option<S> {
        self.seed
    }

    /// The sink has accepted the request.
    pub open spec fn sent(&self) -> bool {
        self.request() is None
    }

    /// The seed was yielded; this sender is spent.
    pub open spec fn completed(&self) -> bool {
        self.seed() is None
    }

    pub fn new(request: R, seed: S) -> (r: Self)
        ensures
            r.request() == Some(request),
            r.seed() == Some(seed),
    {
        RequestSender { request: Some(request), seed: Some(seed) }
    }

    /// Whether the sink has accepted the request.
    pub fn is_sent(&self) -> (r: bool)
        ensures
            r == self.sent(),
    {
        self.request.is_none()
    }

    /// Whether the seed was already yielded.
    pub fn is_completed(&self) -> (r: bool)
        ensures
            r == self.completed(),
    {
        self.seed.is_none()
    }

    /// Take the pending request out to attempt a non-blocking write on the
    /// shared sink.
    pub fn take_request(&mut self) -> (r: Option<R>)
        ensures
            r == old(self).request(),
            final(self).request() is None,
            final(self).seed() == old(self).seed(),
    {
        self.request.take()
    }

    /// The sink rejected the non-blocking write: retain the request, so it
    /// is retried on the next activation without being lost.
    pub fn restore_request(&mut self, request: R)
        requires
            old(self).request() is None,
        ensures
            final(self).request() == Some(request),
            final(self).seed() == old(self).seed(),
    {
        self.request = Some(request);
    }

    /// The write is committed to the wire layer: yield the seed, exactly
    /// once.
    pub fn finish(&mut self) -> (seed: S)
        requires
            old(self).sent(),
            !old(self).completed(),
        ensures
            Some(seed) == old(self).seed(),
            final(self).completed(),
            final(self).sent(),
    {
        match self.seed.take() {
            Some(seed) => seed,
            None => vstd::pervasive::unreached(),
        }
    }
}

} // verus!
