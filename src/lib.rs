//! Remote management of objects in a running simulation.
//!
//! Network-facing request handlers validate incoming messages, turn them into
//! internal requests and append those to a shared, append-only request list.
//! The simulation thread drains the list through a cursor, exactly once and in
//! order, and applies each request to the set of simulated objects.

pub mod ids;
pub mod laws;
pub mod object;
pub mod proto;
pub mod request;
pub mod service;
pub mod types;
pub mod world;
