use rns_tun::shutdown::{shutdown_message, ShutdownReason};

#[test]
fn one_message_per_reason() {
    assert_eq!(
        shutdown_message(ShutdownReason::TunReadLoop),
        "read tun loop exited: shutting down"
    );
    assert_eq!(
        shutdown_message(ShutdownReason::TunWriteLoop),
        "write tun loop exited: shutting down"
    );
    assert_eq!(
        shutdown_message(ShutdownReason::LinkLoop),
        "link loop exited: shutting down"
    );
    assert_eq!(
        shutdown_message(ShutdownReason::AnnounceLoop),
        "announce loop exited: shutting down"
    );
    assert_eq!(
        shutdown_message(ShutdownReason::Interrupt),
        "got ctrl-c: shutting down"
    );
}

#[test]
fn messages_are_distinct() {
    let reasons = [
        ShutdownReason::TunReadLoop,
        ShutdownReason::TunWriteLoop,
        ShutdownReason::LinkLoop,
        ShutdownReason::AnnounceLoop,
        ShutdownReason::Interrupt,
    ];
    for (i, a) in reasons.iter().enumerate() {
        for (j, b) in reasons.iter().enumerate() {
            if i != j {
                assert_ne!(shutdown_message(*a), shutdown_message(*b));
            }
        }
    }
}
