use vstd::prelude::*;

use crate::generic_server::GenericServer;
use crate::ordered_results::OrderedResults;

verus! {

/// Per-connection server for pipeline mode: responses are queued strictly in
/// request-arrival order, even when the service finishes them out of order;
/// a completed response whose turn has not come is held back.
pub type PipelineServer<T> = GenericServer<T, OrderedResults<T>>;

} // verus!
