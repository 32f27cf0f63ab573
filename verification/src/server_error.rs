use vstd::prelude::*;

verus! {

/// Why a per-connection server stopped. Every fallible step of the server
/// maps to exactly one tag, so a caller can tell which phase failed.
#[derive(Debug, Clone, Copy, PartialEq, Eq)]
pub enum ServerError<I, O, S> {
    /// A response could not be handed over because its consumer was gone.
    ConnectionClosed,
    /// A request could not be received.
    ReceiveError(I),
    /// The service failed while producing a response.
    ServiceError(S),
    /// A response could not be sent.
    SendError(O),
}

} // verus!
