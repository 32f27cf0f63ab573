use vstd::prelude::*;

verus! {

/// Which phase of a client call failed. The send phase and the receive phase
/// carry disjoint tags, so a caller can tell "my write failed" from "I never
/// got a matching reply".
#[derive(Debug, Clone, Copy, PartialEq, Eq)]
pub enum ClientError<I, O> {
    /// The response could not be received.
    ReceiveError(I),
    /// The request could not be sent.
    SendError(O),
}

} // verus!
