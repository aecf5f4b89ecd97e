//! Network session and DHT resolution core for a peer-to-peer desktop client.
//!
//! The library owns the decision logic around a single long-lived connection
//! to an overlay network: building the startup configuration, driving the
//! attach/shutdown lifecycle of the session, translating low-level network
//! notifications into a small stream of UI events, and classifying the
//! outcome of distributed-hash-table lookups into a closed error taxonomy.
//! The overlay network client itself performs asynchronous I/O and lives
//! outside this crate; callers hand its results to the functions here as
//! plain values.

pub mod config;
pub mod facade;
pub mod relay;
pub mod resolver;
pub mod session;
mod text;
