//! A session and message relay: connected clients authenticate, then exchange
//! direct and broadcast messages that a central registry routes between them.
//!
//! The crate holds the decisions of the relay as verified functions on plain
//! values: the credential service, the registry of online identities, and the
//! per-connection session. Transport, storage and scheduling are left to the
//! program around it, which performs the actions these functions return.

pub mod author;
pub mod dispatcher;
pub mod error;
pub mod message;
pub mod models;
pub mod websocket;

pub use author::Author;
