//! Correlation and dispatch core for request/response exchanges that share
//! one bidirectional connection, under two disciplines: pipeline (strict
//! in-order pairing) and multiplex (responses tagged with a correlation id,
//! arriving in any order).
//!
//! The types here are the decision cores: they buffer, correlate and order
//! messages, and decide when queues close and when a server is finished.
//! Driving a real transport (sockets, task wakeups, locks) is left to the
//! caller, who feeds each core the plain values one non-blocking activation
//! yielded and performs the actions the core hands back.

mod poll;
mod ready_queue;

mod dispatcher;
mod fifo_dispatcher;
mod message_with_id;
mod multiplex_dispatcher;

mod ordered_results;
mod stream_of_future_results;
mod unordered_results;

mod generic_listening_server;
mod generic_server;
mod multiplex_listening_server;
mod multiplex_server;
mod pipeline_listening_server;
mod pipeline_server;
mod response_queue;

mod multiplex_client;
mod pipeline_client;
mod request_sender;

mod delayed_add;

mod client_error;
mod listening_server_error;
mod server_error;

pub use client_error::ClientError;
pub use listening_server_error::ListeningServerError;
pub use poll::{Async, Drain, DrainEnd};
pub use server_error::ServerError;
pub use ready_queue::{lemma_pop_exactly_once, retrieval_outcome, ReadyQueue, RetrieveError};
pub use dispatcher::DispatchError;
pub use fifo_dispatcher::FifoDispatcher;
pub use message_with_id::MessageWithId;
pub use multiplex_dispatcher::{lemma_stored_matches_id, stored_after, MultiplexDispatcher};
pub use ordered_results::{lemma_ordered_emits_everything, OrderedResults};
pub use stream_of_future_results::{emits, lemma_emits_snoc, StreamOfFutureResults};
pub use unordered_results::{lemma_unordered_emits_everything, UnorderedResults};
pub use generic_listening_server::GenericListeningServer;
pub use generic_server::GenericServer;
pub use multiplex_listening_server::MultiplexListeningServer;
pub use pipeline_listening_server::PipelineListeningServer;
pub use multiplex_server::MultiplexServer;
pub use pipeline_server::PipelineServer;
pub use response_queue::ResponseQueue;
pub use multiplex_client::MultiplexClient;
pub use pipeline_client::PipelineClient;
pub use request_sender::RequestSender;
pub use delayed_add::DelayedAdd;
