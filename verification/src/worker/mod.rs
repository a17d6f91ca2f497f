//! The worker's side of the connection to its coordinator: credentials and
//! claims, the handshake, the probes, the containment of a task's failure,
//! and the state machine that decides what the worker does next.

pub mod auth;
pub mod connection;
pub mod dispatch;
pub mod handshake;
pub mod liveness;
