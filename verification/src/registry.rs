//! The link registry: the single mutable slot holding the identifier of the
//! link that server-side packet forwarding currently targets.
//!
//! The slot is written by the link-event loop and read by the interface-read
//! loop. The policy is last-activated-wins: an `Activated` event overwrites
//! the slot unconditionally, and a `Closed` event never clears it.

use vstd::prelude::*;

use crate::fingerprint::copy_bytes;

verus! {

/// Opaque session identifier of a link, assigned by the overlay endpoint;
/// used only for exact equality and to address outgoing packets.
#[derive(Debug)]
pub struct LinkId {
    bytes: Vec<u8>,
}

impl View for LinkId {
    type V = Seq<u8>;

    closed spec fn view(&self) -> Seq<u8> {
        self.bytes@
    }
}

impl LinkId {
    /// Wraps the raw identifier bytes handed over by the transport boundary.
    pub fn from_bytes(bytes: Vec<u8>) -> (r: LinkId)
        ensures
            r@ == bytes@,
    {
        LinkId { bytes }
    }

    /// The raw identifier bytes, for handing back to the transport boundary.
    pub fn as_bytes(&self) -> (r: &Vec<u8>)
        ensures
            r@ == self@,
    {
        &self.bytes
    }

    /// A fresh identifier holding the same bytes.
    pub fn duplicate(&self) -> (r: LinkId)
        ensures
            r@ == self@,
    {
        LinkId { bytes: copy_bytes(&self.bytes) }
    }

    /// Exact equality of identifiers.
    pub fn matches(&self, other: &LinkId) -> (r: bool)
        ensures
            r <==> self@ == other@,
    {
        if self.bytes.len() != other.bytes.len() {
            return false;
        }
        let mut i: usize = 0;
        while i < self.bytes.len()
            invariant
                i <= self.bytes.len(),
                self.bytes.len() == other.bytes.len(),
                forall|k: int| 0 <= k < i ==> self@[k] == other@[k],
            decreases self.bytes.len() - i,
        {
            if self.bytes[i] != other.bytes[i] {
                return false;
            }
            i += 1;
        }
        assert(self@ =~= other@);
        true
    }
}

/// The single optional slot recording the currently active forwarding link.
pub struct LinkRegistry {
    current: Option<LinkId>,
}

impl View for LinkRegistry {
    type V = Option<Seq<u8>>;

    closed spec fn view(&self) -> Option<Seq<u8>> {
        match self.current {
            Some(ref id) => Some(id@),
            None => None,
        }
    }
}

impl LinkRegistry {
    /// An empty registry: no link has been activated yet.
    pub fn new() -> (r: LinkRegistry)
        ensures
            r@ is None,
    {
        LinkRegistry { current: None }
    }

    /// Records `id` as the current link, unconditionally replacing whatever
    /// the slot held: the most recent activation always wins.
    pub fn activate(&mut self, id: LinkId)
        ensures
            final(self)@ == Some(id@),
    {
        self.current = Some(id);
    }

    /// A copy of the current slot: `None` while no link has been activated.
    pub fn snapshot(&self) -> (r: Option<LinkId>)
        ensures
            r is Some <==> self@ is Some,
            r matches Some(id) ==> self@ == Some(id@),
    {
        match &self.current {
            Some(id) => Some(id.duplicate()),
            None => None,
        }
    }
}

} // verus!
