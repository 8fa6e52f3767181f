//! Decision logic of a resilient media-session supervisor.
//!
//! The library holds no I/O: the host program starts, polls and stops the
//! transport sessions, sleeps, and watches for the interrupt, and hands each
//! observation to the state machines defined here.
pub mod config;
pub mod policy;
pub mod waiter;
pub mod supervisor;
pub mod transport;
