use vstd::prelude::*;

use crate::generic_listening_server::GenericListeningServer;
use crate::unordered_results::UnorderedResults;

verus! {

/// Multi-connection acceptor whose connection servers run in multiplex mode:
/// each connection's responses leave as soon as they are completed.
pub type MultiplexListeningServer<T> = GenericListeningServer<T, UnorderedResults<T>>;

} // verus!
