//! Credential negotiation for git remotes.
//!
//! A remote asks for credentials through a callback that may run many times
//! during one connection attempt, each time naming the credential kinds it
//! is ready to accept. [`auth_handler::AuthHandler`] answers those calls from
//! ordered queues of candidates that are drained front to back, so that no
//! candidate is offered twice and the exchange always comes to an end.

pub mod auth_handler;
pub mod credential;
pub mod error;
pub mod guarantees;
pub mod kinds;
pub mod negotiation;
