use vstd::prelude::*;

use crate::generic_server::GenericServer;
use crate::unordered_results::UnorderedResults;

verus! {

/// Per-connection server for multiplex mode: responses are queued as soon as
/// they are completed, interleaved by finish time; the wire messages must be
/// self-identifying since order carries no meaning.
pub type MultiplexServer<T> = GenericServer<T, UnorderedResults<T>>;

} // verus!
