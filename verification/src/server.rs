//! The server role of the bridge.
//!
//! The server announces one local destination, tracks the most recently
//! activated inbound link in its registry, forwards packets read from the
//! virtual interface to that link only, and writes inbound data payloads
//! to the interface when they carry its own destination fingerprint.

use vstd::prelude::*;

use crate::event::{forward_decision, forward_payload, LinkEvent, LinkEventKind};
use crate::fingerprint::Fingerprint;
use crate::registry::{LinkId, LinkRegistry};

verus! {

/// The registry slot after one link event: an activation carrying the local
/// fingerprint stores that link's identifier, replacing whatever the slot
/// held; every other event — data, closure, or any event with a foreign
/// fingerprint — leaves the slot as it was.
pub open spec fn slot_after(slot: Option<Seq<u8>>, e: &LinkEvent, local: Seq<u8>) -> Option<
    Seq<u8>,
> {
    if e.fingerprint@ == local && e.kind is Activated {
        Some(e.id@)
    } else {
        slot
    }
}

/// Where a packet read from the interface goes: onto the current link when
/// the slot holds one, unmodified; silently dropped while the slot is empty.
pub open spec fn tun_forward(slot: Option<Seq<u8>>, p: Seq<u8>) -> Option<(Seq<u8>, Seq<u8>)> {
    match slot {
        Some(id) => Some((id, p)),
        None => None,
    }
}

/// Abstract state of a server bridge: its destination fingerprint and the
/// registry slot.
pub struct ServerBridgeState {
    /// Fingerprint of the server's own registered destination.
    pub destination: Seq<u8>,
    /// Identifier of the currently active link, if any was activated.
    pub slot: Option<Seq<u8>>,
}

/// Forwarding policy and registry of the server role.
pub struct ServerBridge {
    destination: Fingerprint,
    registry: LinkRegistry,
}

impl View for ServerBridge {
    type V = ServerBridgeState;

    closed spec fn view(&self) -> ServerBridgeState {
        ServerBridgeState { destination: self.destination@, slot: self.registry@ }
    }
}

impl ServerBridge {
    /// A server bridge for the destination with fingerprint `destination`.
    /// No link is active yet: packets from the interface are dropped until
    /// the first activation arrives.
    pub fn new(destination: Fingerprint) -> (r: ServerBridge)
        ensures
            r@.destination == destination@,
            r@.slot is None,
    {
        ServerBridge { destination, registry: LinkRegistry::new() }
    }

    /// Applies one inbound link event: updates the registry slot as
    /// `slot_after` says and returns the payload to write to the interface,
    /// if the event was data for this server's destination.
    pub fn handle_link_event(&mut self, e: LinkEvent) -> (w: Option<Vec<u8>>)
        ensures
            final(self)@.destination == old(self)@.destination,
            final(self)@.slot == slot_after(old(self)@.slot, &e, old(self)@.destination),
            w is Some <==> forward_payload(&e, old(self)@.destination) is Some,
            w matches Some(p) ==> forward_payload(&e, old(self)@.destination) == Some(p@),
    {
        if e.fingerprint.matches(&self.destination) {
            match e.kind {
                LinkEventKind::Data(payload) => Some(payload),
                LinkEventKind::Activated => {
                    self.registry.activate(e.id);
                    None
                },
                LinkEventKind::Closed => None,
            }
        } else {
            forward_decision(e, &self.destination)
        }
    }

    /// Decides where a packet read from the interface goes: onto the
    /// currently active link, unmodified, or nowhere while no link has been
    /// activated. Dropping is the expected steady state before the first
    /// activation, not an error.
    pub fn handle_tun_packet(&self, packet: Vec<u8>) -> (out: Option<(LinkId, Vec<u8>)>)
        ensures
            out is Some <==> tun_forward(self@.slot, packet@) is Some,
            out matches Some(pair) ==> tun_forward(self@.slot, packet@) == Some(
                (pair.0@, pair.1@),
            ),
    {
        match self.registry.snapshot() {
            Some(id) => Some((id, packet)),
            None => None,
        }
    }
}

/// After an activation of link `a` followed by an activation of link `b`,
/// both for the local destination, the registry slot holds `b`, and a packet
/// read from the interface is forwarded on `b` — never on `a`, unless the
/// two identifiers are equal.
pub proof fn lemma_last_activated_wins(
    slot: Option<Seq<u8>>,
    a: LinkEvent,
    b: LinkEvent,
    local: Seq<u8>,
    p: Seq<u8>,
)
    requires
        a.kind is Activated,
        a.fingerprint@ == local,
        b.kind is Activated,
        b.fingerprint@ == local,
    ensures
        slot_after(slot_after(slot, &a, local), &b, local) == Some(b.id@),
        tun_forward(slot_after(slot_after(slot, &a, local), &b, local), p) == Some((b.id@, p)),
        a.id@ != b.id@ ==> tun_forward(slot_after(slot_after(slot, &a, local), &b, local), p)
            != Some((a.id@, p)),
{
}

/// A packet read from the interface before any activation is dropped: it
/// reaches neither the interface nor the overlay.
pub proof fn lemma_packet_before_activation_dropped(p: Seq<u8>)
    ensures
        tun_forward(None, p) is None,
{
}

/// Replaying any link event leaves the slot where one application of it put
/// it: in particular a repeated activation of the same link changes nothing,
/// so duplicate announces and the duplicate links they may create cannot
/// corrupt the registry.
pub proof fn lemma_event_replay_idempotent(slot: Option<Seq<u8>>, e: LinkEvent, local: Seq<u8>)
    ensures
        slot_after(slot_after(slot, &e, local), &e, local) == slot_after(slot, &e, local),
{
}

} // verus!
