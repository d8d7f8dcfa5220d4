//! A library that crawls the Monero peer-to-peer network and keeps the peers
//! that satisfy a list of capabilities.
//!
//! The network work (connecting, handshakes, pings, RPC and ZMQ probes) is done
//! by the caller; this library decides which peers are reached, which probe
//! comes next for a peer, and whether a peer is kept.

pub mod peer;
pub mod seeds;
pub mod capability_checkers;
pub mod scan;
pub mod laws;
pub mod crawl;
pub mod config;
pub mod rpc;
