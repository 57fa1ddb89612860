//! Core engine of a minimal overlay-network relay.
//!
//! Peers tunnel IP packets inside UDP datagrams through a central
//! rendezvous process. This crate holds the parts with real invariants:
//! the wire protocol, the peer-address registry, address extraction from
//! tunneled packets, and the dispatch rules of the forwarding loops.
//! Socket and virtual-interface plumbing lives outside the crate.

pub mod addr;
pub mod cli;
pub mod dispatch;
pub mod node;
pub mod packet;
pub mod registry;
pub mod snapshot;
pub mod wire;
