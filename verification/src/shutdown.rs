//! Shutdown reasons.
//!
//! The bridge races its concurrent loops against the interrupt signal;
//! whichever finishes first brings the whole bridge down. Exactly one
//! reason names that first finisher, and each reason has one fixed log
//! message.

use vstd::prelude::*;

verus! {

/// Which loop or signal ended the bridge.
#[derive(Clone, Copy, Debug, PartialEq, Eq, Structural)]
pub enum ShutdownReason {
    /// The interface-read-and-forward loop exited.
    TunReadLoop,
    /// The loop writing inbound payloads to the interface exited.
    TunWriteLoop,
    /// The link-event or announce-match loop exited.
    LinkLoop,
    /// The periodic announce loop exited.
    AnnounceLoop,
    /// The process interrupt signal arrived.
    Interrupt,
}

/// The one log message belonging to a shutdown reason.
pub fn shutdown_message(reason: ShutdownReason) -> (m: String)
    ensures
        reason is TunReadLoop ==> m@ == "read tun loop exited: shutting down"@,
        reason is TunWriteLoop ==> m@ == "write tun loop exited: shutting down"@,
        reason is LinkLoop ==> m@ == "link loop exited: shutting down"@,
        reason is AnnounceLoop ==> m@ == "announce loop exited: shutting down"@,
        reason is Interrupt ==> m@ == "got ctrl-c: shutting down"@,
{
    match reason {
        ShutdownReason::TunReadLoop => "read tun loop exited: shutting down".to_owned(),
        ShutdownReason::TunWriteLoop => "write tun loop exited: shutting down".to_owned(),
        ShutdownReason::LinkLoop => "link loop exited: shutting down".to_owned(),
        ShutdownReason::AnnounceLoop => "announce loop exited: shutting down".to_owned(),
        ShutdownReason::Interrupt => "got ctrl-c: shutting down".to_owned(),
    }
}

} // verus!
