//! Host network configuration commands and the startup error taxonomy.
//!
//! At startup the bridge assigns an address to the virtual interface,
//! brings it up, and installs one static route (client) or one NAT
//! masquerade rule (server); the server removes the rule again on shutdown.
//! This module builds the exact argument lists of those commands and turns
//! each command's outcome into the error owed at that setup step. Running
//! the commands is the caller's business.

use vstd::prelude::*;

verus! {

/// How a host configuration command ended.
pub enum CommandOutcome {
    /// The command could not be launched at all.
    LaunchFailed,
    /// The command ran and failed, with its exit code when one was
    /// reported.
    Failed(Option<i32>),
    /// The command ran and succeeded.
    Succeeded,
}

/// Which host configuration step a command belongs to.
#[derive(Clone, Copy, Debug, PartialEq, Eq, Structural)]
pub enum SetupStep {
    /// Assigning the address and broadcast address to the interface.
    AddBroadcast,
    /// Bringing the interface administratively up.
    LinkUp,
    /// Installing the client's static route to the target range.
    RouteAdd,
    /// Installing or removing the server's NAT masquerade rule.
    Masquerade,
}

/// Why creating and configuring the virtual interface failed. Every
/// variant is fatal at startup: there is no retry.
pub enum CreateAdapterError {
    /// Allocating the device failed; `permission_denied` distinguishes the
    /// insufficient-privilege cause, so callers can advise running as a
    /// privileged user.
    RiptunError { permission_denied: bool },
    /// Assigning the address failed.
    IpAddBroadcastError(CommandOutcome),
    /// Bringing the interface up failed.
    IpLinkUpError(CommandOutcome),
    /// Installing the static route failed.
    IpRouteAddError(CommandOutcome),
    /// Installing the NAT masquerade rule failed.
    IptablesError(CommandOutcome),
}

/// Arguments of the command assigning `ip` to device `dev` with broadcast
/// address `brd`.
pub fn addr_add_args(ip: &str, brd: &str, dev: &str) -> (r: Vec<String>)
    ensures
        r@.len() == 7,
        r@[0]@ == "addr"@,
        r@[1]@ == "add"@,
        r@[2]@ == ip@,
        r@[3]@ == "brd"@,
        r@[4]@ == brd@,
        r@[5]@ == "dev"@,
        r@[6]@ == dev@,
{
    let mut r: Vec<String> = Vec::new();
    r.push("addr".to_owned());
    r.push("add".to_owned());
    r.push(ip.to_owned());
    r.push("brd".to_owned());
    r.push(brd.to_owned());
    r.push("dev".to_owned());
    r.push(dev.to_owned());
    r
}

/// Arguments of the command bringing device `dev` administratively up.
pub fn link_up_args(dev: &str) -> (r: Vec<String>)
    ensures
        r@.len() == 5,
        r@[0]@ == "link"@,
        r@[1]@ == "set"@,
        r@[2]@ == "dev"@,
        r@[3]@ == dev@,
        r@[4]@ == "up"@,
{
    let mut r: Vec<String> = Vec::new();
    r.push("link".to_owned());
    r.push("set".to_owned());
    r.push("dev".to_owned());
    r.push(dev.to_owned());
    r.push("up".to_owned());
    r
}

/// Arguments of the command routing `target` through device `dev`.
pub fn route_add_args(target: &str, dev: &str) -> (r: Vec<String>)
    ensures
        r@.len() == 5,
        r@[0]@ == "route"@,
        r@[1]@ == "add"@,
        r@[2]@ == target@,
        r@[3]@ == "dev"@,
        r@[4]@ == dev@,
{
    let mut r: Vec<String> = Vec::new();
    r.push("route".to_owned());
    r.push("add".to_owned());
    r.push(target.to_owned());
    r.push("dev".to_owned());
    r.push(dev.to_owned());
    r
}

/// Arguments of the command installing (`install` true) or removing
/// (`install` false) the NAT masquerade rule for sources in `subnet`
/// leaving through `iface`. Installation and removal differ in exactly the
/// append-or-delete flag.
pub fn masquerade_args(install: bool, subnet: &str, iface: &str) -> (r: Vec<String>)
    ensures
        r@.len() == 10,
        r@[0]@ == "-t"@,
        r@[1]@ == "nat"@,
        install ==> r@[2]@ == "-A"@,
        !install ==> r@[2]@ == "-D"@,
        r@[3]@ == "POSTROUTING"@,
        r@[4]@ == "-s"@,
        r@[5]@ == subnet@,
        r@[6]@ == "-o"@,
        r@[7]@ == iface@,
        r@[8]@ == "-j"@,
        r@[9]@ == "MASQUERADE"@,
{
    let mut r: Vec<String> = Vec::new();
    r.push("-t".to_owned());
    r.push("nat".to_owned());
    if install {
        r.push("-A".to_owned());
    } else {
        r.push("-D".to_owned());
    }
    r.push("POSTROUTING".to_owned());
    r.push("-s".to_owned());
    r.push(subnet.to_owned());
    r.push("-o".to_owned());
    r.push(iface.to_owned());
    r.push("-j".to_owned());
    r.push("MASQUERADE".to_owned());
    r
}

/// The error a setup step owes for a command outcome: success passes, and
/// any failure becomes the one error variant belonging to that step,
/// carrying the outcome.
pub fn classify_setup(step: SetupStep, outcome: CommandOutcome) -> (r: Result<
    (),
    CreateAdapterError,
>)
    ensures
        r is Ok <==> outcome is Succeeded,
        r matches Err(e) ==> match step {
            SetupStep::AddBroadcast => e matches CreateAdapterError::IpAddBroadcastError(o)
                && o == outcome,
            SetupStep::LinkUp => e matches CreateAdapterError::IpLinkUpError(o) && o == outcome,
            SetupStep::RouteAdd => e matches CreateAdapterError::IpRouteAddError(o) && o == outcome,
            SetupStep::Masquerade => e matches CreateAdapterError::IptablesError(o) && o == outcome,
        },
{
    match outcome {
        CommandOutcome::Succeeded => Ok(()),
        _ => Err(
            match step {
                SetupStep::AddBroadcast => CreateAdapterError::IpAddBroadcastError(outcome),
                SetupStep::LinkUp => CreateAdapterError::IpLinkUpError(outcome),
                SetupStep::RouteAdd => CreateAdapterError::IpRouteAddError(outcome),
                SetupStep::Masquerade => CreateAdapterError::IptablesError(outcome),
            },
        ),
    }
}

/// True exactly for the device-creation failure caused by insufficient
/// privilege: the one startup error whose report should advise running as
/// a privileged user.
pub fn advises_privilege(e: &CreateAdapterError) -> (r: bool)
    ensures
        r <==> e matches CreateAdapterError::RiptunError { permission_denied: true },
{
    match e {
        CreateAdapterError::RiptunError { permission_denied } => *permission_denied,
        _ => false,
    }
}

} // verus!
