//! Bounded conversation memory for a chat client.
//!
//! The crate keeps the full message log of a session, derives from it the
//! bounded window that is sent with each request, maintains the rolling
//! summary of everything older than that window, and drives a turn as an
//! explicit state machine. Every function is verified against the contract
//! written beside it; the one exception is the call into `chrono` in
//! [`transcript`], whose contract is taken on trust.

pub mod context;
pub mod guarantees;
pub mod input;
pub mod log;
pub mod message;
pub mod remote;
pub mod session;
pub mod summarizer;
pub mod transcript;
