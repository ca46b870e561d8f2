use rns_tun::netcmd::{
    addr_add_args, advises_privilege, classify_setup, link_up_args, masquerade_args,
    route_add_args, CommandOutcome, CreateAdapterError, SetupStep,
};

#[test]
fn addr_add_argument_list() {
    let args = addr_add_args("10.0.0.1/24", "10.0.0.1", "rip0");
    assert_eq!(
        args,
        vec!["addr", "add", "10.0.0.1/24", "brd", "10.0.0.1", "dev", "rip0"]
    );
}

#[test]
fn link_up_argument_list() {
    let args = link_up_args("rip0");
    assert_eq!(args, vec!["link", "set", "dev", "rip0", "up"]);
}

#[test]
fn route_add_argument_list() {
    let args = route_add_args("10.0.0.2/32", "rip0");
    assert_eq!(args, vec!["route", "add", "10.0.0.2/32", "dev", "rip0"]);
}

#[test]
fn masquerade_install_argument_list() {
    let args = masquerade_args(true, "10.0.0.0/24", "wlp3s0");
    assert_eq!(
        args,
        vec![
            "-t",
            "nat",
            "-A",
            "POSTROUTING",
            "-s",
            "10.0.0.0/24",
            "-o",
            "wlp3s0",
            "-j",
            "MASQUERADE"
        ]
    );
}

#[test]
fn masquerade_remove_argument_list() {
    let args = masquerade_args(false, "10.0.0.0/24", "eth0");
    assert_eq!(args[2], "-D");
    let install = masquerade_args(true, "10.0.0.0/24", "eth0");
    assert_eq!(&args[..2], &install[..2]);
    assert_eq!(&args[3..], &install[3..]);
}

#[test]
fn success_passes_every_step() {
    assert!(classify_setup(SetupStep::AddBroadcast, CommandOutcome::Succeeded).is_ok());
    assert!(classify_setup(SetupStep::LinkUp, CommandOutcome::Succeeded).is_ok());
    assert!(classify_setup(SetupStep::RouteAdd, CommandOutcome::Succeeded).is_ok());
    assert!(classify_setup(SetupStep::Masquerade, CommandOutcome::Succeeded).is_ok());
}

#[test]
fn address_failure_classified() {
    let err = classify_setup(SetupStep::AddBroadcast, CommandOutcome::Failed(Some(2)))
        .unwrap_err();
    assert!(matches!(
        err,
        CreateAdapterError::IpAddBroadcastError(CommandOutcome::Failed(Some(2)))
    ));
}

#[test]
fn link_up_failure_classified() {
    let err = classify_setup(SetupStep::LinkUp, CommandOutcome::LaunchFailed).unwrap_err();
    assert!(matches!(
        err,
        CreateAdapterError::IpLinkUpError(CommandOutcome::LaunchFailed)
    ));
}

#[test]
fn route_failure_classified() {
    let err = classify_setup(SetupStep::RouteAdd, CommandOutcome::Failed(None)).unwrap_err();
    assert!(matches!(
        err,
        CreateAdapterError::IpRouteAddError(CommandOutcome::Failed(None))
    ));
}

#[test]
fn masquerade_failure_classified() {
    let err = classify_setup(SetupStep::Masquerade, CommandOutcome::Failed(Some(1))).unwrap_err();
    assert!(matches!(
        err,
        CreateAdapterError::IptablesError(CommandOutcome::Failed(Some(1)))
    ));
}

#[test]
fn privilege_advice_only_for_permission_denied_device_creation() {
    assert!(advises_privilege(&CreateAdapterError::RiptunError {
        permission_denied: true
    }));
    assert!(!advises_privilege(&CreateAdapterError::RiptunError {
        permission_denied: false
    }));
    assert!(!advises_privilege(&CreateAdapterError::IptablesError(
        CommandOutcome::LaunchFailed
    )));
}
