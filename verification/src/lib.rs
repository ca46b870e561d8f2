//! Packet bridge and link-lifecycle controller for tunnelling IP traffic
//! between a local virtual network interface and a point-to-point session
//! on an overlay mesh transport.
//!
//! The crate holds the decision logic of the bridge: fingerprint parsing
//! and matching, the registry of the active forwarding link, the per-loop
//! forwarding policies of the client and server roles, the model of the
//! shared packet buffer, and the construction of the host network
//! configuration commands. The surrounding I/O (the virtual interface
//! driver, the overlay transport, the async loop wiring) lives outside
//! this crate and hands plain values in and out.

use vstd::prelude::*;

pub mod fingerprint;
pub mod event;
pub mod registry;
pub mod client;
pub mod server;
pub mod packet_buffer;
pub mod netcmd;
pub mod shutdown;

verus! {

/// Largest packet, in bytes, that the virtual interface carries in one
/// read or send.
pub const MTU: usize = 1500;

} // verus!
