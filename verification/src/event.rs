//! Link events and the shared forwarding policy for their payloads.
//!
//! The overlay endpoint reports, per link, data arrival, activation and
//! closure. Both bridge roles forward a payload to the virtual interface
//! only when the event carries the fingerprint they expect; every other
//! event yields no interface write.

use vstd::prelude::*;

use crate::fingerprint::Fingerprint;
use crate::registry::LinkId;

verus! {

/// What happened on a link.
pub enum LinkEventKind {
    /// A payload arrived on the link.
    Data(Vec<u8>),
    /// The link finished its handshake and became usable.
    Activated,
    /// The link was closed; terminal.
    Closed,
}

/// One event from an overlay link event stream.
pub struct LinkEvent {
    /// Session identifier of the link the event belongs to.
    pub id: LinkId,
    /// Fingerprint of the destination the event's link terminates at.
    pub fingerprint: Fingerprint,
    /// What happened.
    pub kind: LinkEventKind,
}

/// The payload an event makes the bridge write to the virtual interface:
/// the carried bytes when the event is data arriving for the expected
/// fingerprint, and nothing otherwise.
pub open spec fn forward_payload(e: &LinkEvent, expected: Seq<u8>) -> Option<Seq<u8>> {
    match e.kind {
        LinkEventKind::Data(p) => if e.fingerprint@ == expected {
            Some(p@)
        } else {
            None
        },
        _ => None,
    }
}

/// Decides what an event makes the bridge write to the interface. Returns
/// the payload exactly when `e` carries data for `expected`; any event with
/// another fingerprint, and any activation or closure, yields `None`.
pub fn forward_decision(e: LinkEvent, expected: &Fingerprint) -> (w: Option<Vec<u8>>)
    ensures
        w is Some <==> forward_payload(&e, expected@) is Some,
        w matches Some(p) ==> forward_payload(&e, expected@) == Some(p@),
{
    match e.kind {
        LinkEventKind::Data(payload) => {
            if e.fingerprint.matches(expected) {
                Some(payload)
            } else {
                None
            }
        },
        LinkEventKind::Activated => None,
        LinkEventKind::Closed => None,
    }
}

/// An inbound event whose fingerprint differs from the expected one never
/// triggers an interface write, in either role.
pub proof fn lemma_mismatched_fingerprint_not_forwarded(e: LinkEvent, expected: Seq<u8>)
    requires
        e.fingerprint@ != expected,
    ensures
        forward_payload(&e, expected) is None,
{
}

} // verus!
