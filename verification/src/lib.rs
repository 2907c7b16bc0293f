//! Transport adapter between a peer-to-peer QUIC substrate and an RPC
//! messaging layer: the lifecycle, queueing and address rules, stated as
//! contracts over plain values.

pub mod address;
pub mod client;
pub mod config;
pub mod connection;
pub mod error;
pub mod framing;
pub mod interop;
pub mod queue;
pub mod server;
