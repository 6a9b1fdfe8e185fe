//! An in-process RPC correlation layer.
//!
//! The crate matches asynchronous call requests to their eventual responses:
//! a [`dispatcher::Dispatcher`] hands outgoing requests to a transport over a
//! bounded channel, a [`responder::Responder`] delivers each result under its
//! call id, and a [`responder::Response`] is the per-call handle that races an
//! optional timer against delivery.

pub mod channel;
pub mod client;
pub mod dispatcher;
pub mod errors;
pub mod laws;
pub mod responder;
pub mod timer;

pub use errors::PollOutcome;
pub use errors::RpcError;
