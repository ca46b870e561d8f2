//! The client role of the bridge.
//!
//! The client discovers the server by matching announces against the
//! configured server fingerprint, broadcasts every packet read from the
//! virtual interface to all of its outbound links, and writes inbound data
//! payloads to the interface only when they carry the server's fingerprint.

use vstd::prelude::*;

use crate::event::{forward_decision, forward_payload, LinkEvent};
use crate::fingerprint::Fingerprint;

verus! {

/// Forwarding and matching policy of the client role. Its view is the
/// configured server fingerprint; the client keeps no other state.
pub struct ClientBridge {
    server_destination: Fingerprint,
}

impl View for ClientBridge {
    type V = Seq<u8>;

    closed spec fn view(&self) -> Seq<u8> {
        self.server_destination@
    }
}

impl ClientBridge {
    /// A client bridge expecting announces and events from
    /// `server_destination`.
    pub fn new(server_destination: Fingerprint) -> (r: ClientBridge)
        ensures
            r@ == server_destination@,
    {
        ClientBridge { server_destination }
    }

    /// Decides whether an announce carrying `fp` asks for an outbound link:
    /// exactly when `fp` equals the configured server fingerprint, byte for
    /// byte. Every other announce is discarded. The decision depends on the
    /// announce alone, so a repeated announce from the same peer gets the
    /// same answer and changes nothing in the bridge.
    pub fn handle_announce(&self, fp: &Fingerprint) -> (create: bool)
        ensures
            create <==> fp@ == self@,
    {
        fp.matches(&self.server_destination)
    }

    /// Decides what an inbound link event makes the client write to the
    /// interface: the payload of a data event carrying the server's
    /// fingerprint, and nothing for any other event.
    pub fn handle_link_event(&self, e: LinkEvent) -> (w: Option<Vec<u8>>)
        ensures
            w is Some <==> forward_payload(&e, self@) is Some,
            w matches Some(p) ==> forward_payload(&e, self@) == Some(p@),
    {
        forward_decision(e, &self.server_destination)
    }

    /// The bytes a packet read from the interface sends to every open
    /// outbound link: the packet itself, unmodified.
    pub fn handle_tun_packet(&self, packet: Vec<u8>) -> (out: Vec<u8>)
        ensures
            out@ == packet@,
    {
        packet
    }
}

} // verus!
