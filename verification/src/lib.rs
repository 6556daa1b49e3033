//! Core of a key-value service reached over HTTP through a single
//! op-multiplexed remote method.
//!
//! The service exposes one remote method whose behaviour branches on a string
//! operation code (`ping`, `get`, `set`, `del`) carried inside the request.
//! This crate holds everything of that protocol that is worth stating
//! precisely: the store itself, the dispatcher that interprets the op code,
//! the service boundary with its interceptor hook, and the mapping from
//! protocol results to HTTP status and body. Transport and process plumbing
//! live outside, in the surrounding binary.

pub mod boundary;
pub mod dispatch;
pub mod gateway;
pub mod laws;
pub mod model;
pub mod protocol;
pub mod store;
