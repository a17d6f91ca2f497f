//! Core of a proving worker: the task envelope protocol, the prover
//! capabilities with their registry, and the rules by which a worker talks to
//! its coordinator.
//!
//! The library decides and the program around it acts: the library says what
//! to prove next, what to send and when to stop, and the program performs the
//! network traffic and runs the proving engine.

pub mod params;
pub mod provers;
pub mod text;
pub mod types;
pub mod worker;
