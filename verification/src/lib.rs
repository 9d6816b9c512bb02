//! Core of a controllable TCP fan-out server.
//!
//! A controller starts and stops a single listener and publishes binary
//! payloads to every connected client through a bounded broadcast channel.
//! The channel semantics (publish order, closure, lag eviction) are stated
//! and proved over a mathematical model in [`channel`]; the lifecycle rules
//! live in [`controller`]; the listener loop and the per-client session are
//! given as verified decision functions in [`listener`] and [`session`],
//! which an unverified runtime drives between its suspension points. The
//! live channel and the stop signal are tokio's, held behind the trusted
//! boundary in [`tokio_sync`].

pub mod channel;
pub mod controller;
pub mod listener;
pub mod session;
pub mod tokio_sync;
