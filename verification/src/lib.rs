//! The inbound half of a federated social-networking server.
//!
//! A signed activity that arrives from a remote server is authenticated,
//! checked for ownership, and dispatched to the handler of its type. The
//! database and the network stay outside: every operation here is a state
//! machine that asks for one piece of outside work at a time ([`protocol::Request`])
//! and decides, on the answer ([`protocol::Reply`]), what comes next.

pub mod api;
pub mod database;
pub mod error;
pub mod fetcher;
pub mod guarantees;
pub mod handler;
pub mod inbox;
pub mod json;
pub mod model;
pub mod pipeline;
pub mod protocol;
pub mod store;
