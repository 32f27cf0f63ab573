use vstd::prelude::*;

verus! {

/// Why a listening server stopped: one of its pairing sources failed, or one
/// of the connection servers it was driving failed.
#[derive(Debug, Clone, Copy, PartialEq, Eq)]
pub enum ListeningServerError<S, T, A> {
    /// A new transport could not be accepted.
    TransportError(T),
    /// A new service instance could not be produced.
    ServiceError(S),
    /// One of the active connection servers failed.
    ServerError(A),
}

} // verus!
