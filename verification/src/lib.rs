//! Connection and dispatch engine of a relay proxy.
//!
//! The proxy keeps one authenticated WebSocket session to a control plane,
//! advertises its data sources there and answers provider invocations. This
//! crate holds the decisions of that engine as plain state machines: every
//! function takes the current state and an event and returns what to do next.
//! Sockets, timers and the provider sandbox stay with the caller.
//!
//! - `name`, `model`: the values that travel through the engine.
//! - `registry`: the loaded provider modules and the configured data sources.
//! - `handshake`, `session`, `error`: one WebSocket session and why it ends.
//! - `dispatcher`, `executor`: the bounded worker pool and what a worker runs.
//! - `health`: the status of every data source and when it is reported.
//! - `supervisor`: retries, backoff, the health endpoint and exit codes.
//! - `service`, `connection`: the settings of the proxy and one run of it.
//! - `trace`, `ledger`: what holds after every sequence of events.

pub mod connection;
pub mod dispatcher;
pub mod error;
pub mod executor;
pub mod handshake;
pub mod health;
pub mod ledger;
pub mod model;
pub mod name;
pub mod registry;
pub mod service;
pub mod session;
pub mod supervisor;
pub mod trace;

pub use connection::{Connection, Reading, Step};
pub use service::ProxyService;
