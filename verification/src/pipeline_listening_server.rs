use vstd::prelude::*;

use crate::generic_listening_server::GenericListeningServer;
use crate::ordered_results::OrderedResults;

verus! {

/// Multi-connection acceptor whose connection servers run in pipeline mode:
/// each connection's responses leave in its requests' arrival order.
pub type PipelineListeningServer<T> = GenericListeningServer<T, OrderedResults<T>>;

} // verus!
