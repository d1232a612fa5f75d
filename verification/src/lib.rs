//! A realtime text-chat relay core: a coordinator that owns the registry of
//! sessions and the room membership table, and the per-connection session
//! logic that turns inbound frames into typed requests.
//!
//! Nothing here performs I/O. Every coordinator operation returns the
//! notifications it wants delivered, each addressed to a session identifier;
//! the surrounding program owns the transport, the clock and the timers.
//!
//! - [`ident`]: session identifiers, drawn and rendered by the `uuid` crate.
//! - [`message`]: users, notifications and the typed requests.
//! - [`model`]: the coordinator as a mathematical state machine.
//! - [`laws`]: what holds of that state machine in every reachable state.
//! - [`server`]: the executable coordinator.
//! - [`command`]: the command text protocol.
//! - [`session`]: liveness and frame handling of one connection.

pub mod ident;
pub mod message;
pub mod model;
pub mod laws;
pub mod server;
pub mod command;
pub mod session;
