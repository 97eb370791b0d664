//! The command line: its commands, and what they decide and report.

use vstd::prelude::*;
use crate::config::Config;
use crate::error::BtError;
use crate::lookup::{designated_device, find_device};
use crate::protocol::{AgentMessage, DeviceInfo, HandoffStatus};
use crate::text::{concat2, concat3, decimal, owned, push_decimal};

verus! {

/// A parsed command line.
pub struct Cli {
    pub command: Command,
}

/// What the user asked for.
pub enum Command {
    /// List all paired Bluetooth devices with connection status
    List,
    /// Show connection status for all paired devices
    Status,
    /// Handoff a device to another machine
    Handoff { device: String, to: String, port: u16 },
    /// Run as background agent
    Agent { daemonize: bool },
    /// Discover other agents on the local network
    Discover,
    /// Add a device alias for easier reference
    Alias { name: String, address: String },
    /// Remove a device alias
    Rm { name: String },
    /// Launch graphical user interface
    Gui,
}

/// The device that a handoff of `device` is about (see `designated_device`), or
/// `DeviceNotFound` naming what the user typed.
pub fn handoff_target<'a>(config: &Config, devices: &'a [DeviceInfo], device: &str) -> (r: Result<&'a DeviceInfo, BtError>)
    ensures
        match designated_device(config.devices@, devices@, device@) {
            Some(k) => 0 <= k < devices@.len() && r == Ok::<&DeviceInfo, BtError>(&devices@[k]),
            None => r matches Err(BtError::DeviceNotFound(q)) && q@ == device@,
        },
{
    match find_device(config, devices, device) {
        Some(d) => Ok(d),
        None => Err(BtError::DeviceNotFound(owned(device))),
    }
}

/// The request that hands `target` over, sent from the machine `hostname`.
pub fn handoff_request(target: &DeviceInfo, hostname: &str) -> (r: AgentMessage)
    ensures
        r matches AgentMessage::HandoffRequest { device_name, bt_address, from_host }
            && device_name@ == target.name@ && bt_address@ == target.bt_address@ && from_host@ == hostname@,
{
    AgentMessage::HandoffRequest {
        device_name: target.name.clone(),
        bt_address: target.bt_address.clone(),
        from_host: owned(hostname),
    }
}

/// Where the agent of the machine `to` listens on `port`.
pub fn agent_endpoint(to: &str, port: u16) -> (r: String)
    ensures
        r@ == to@ + ":"@ + decimal(port as nat),
{
    let mut s = concat2(to, ":");
    push_decimal(&mut s, port as u64);
    s
}

/// What the user is told while `target` is taken from the machine `hostname`.
pub fn disconnect_notice(target: &DeviceInfo, hostname: &str) -> (r: String)
    ensures
        r@ == "Disconnecting "@ + target.name@ + " ("@ + target.bt_address@ + ") from "@ + hostname@ + "..."@,
{
    let mut s = concat3("Disconnecting ", target.name.as_str(), " (");
    s.append(target.bt_address.as_str());
    s.append(") from ");
    s.append(hostname);
    s.append("...");
    s
}

/// The line that reports the agent's answer to a handoff.
pub open spec fn handoff_report_text(reply: AgentMessage) -> Seq<char> {
    match reply {
        AgentMessage::HandoffAck { status, message, .. } => match status {
            HandoffStatus::Connected => "\u{2705} Handoff complete: "@ + message@,
            HandoffStatus::Accepted => "Handoff accepted, waiting for connection..."@,
            HandoffStatus::Failed(reason) => "\u{274c} Handoff failed: "@ + reason@,
            HandoffStatus::Rejected(reason) => "\u{26d4} Handoff rejected: "@ + reason@,
        },
        _ => "Unexpected response from agent"@,
    }
}

/// The line that reports the agent's answer to a handoff.
pub fn handoff_report(reply: &AgentMessage) -> (r: String)
    ensures
        r@ == handoff_report_text(*reply),
{
    match reply {
        AgentMessage::HandoffAck { status, message, .. } => match status {
            HandoffStatus::Connected => concat2("\u{2705} Handoff complete: ", message.as_str()),
            HandoffStatus::Accepted => owned("Handoff accepted, waiting for connection..."),
            HandoffStatus::Failed(reason) => concat2("\u{274c} Handoff failed: ", reason.as_str()),
            HandoffStatus::Rejected(reason) => concat2("\u{26d4} Handoff rejected: ", reason.as_str()),
        },
        _ => owned("Unexpected response from agent"),
    }
}

/// The confirmation of `alias name address`.
pub fn alias_saved_notice(name: &str, address: &str) -> (r: String)
    ensures
        r@ == "Alias saved: "@ + name@ + " -> "@ + address@,
{
    let mut s = concat3("Alias saved: ", name, " -> ");
    s.append(address);
    s
}

/// The report of `rm`, after `removed` aliases went.
pub fn removal_notice(removed: usize) -> (r: String)
    ensures
        removed > 0 ==> r@ == "Removed "@ + decimal(removed as nat) + " alias(es)"@,
        removed == 0 ==> r@ == "No matching alias found"@,
{
    if removed > 0 {
        let mut s = owned("Removed ");
        push_decimal(&mut s, removed as u64);
        s.append(" alias(es)");
        s
    } else {
        owned("No matching alias found")
    }
}

/// The network steps of a handoff from the command line.
pub enum HandoffIoStep {
    Connect,
    Send,
    Read,
}

/// The error for a network step of a handoff to the agent at `endpoint` that failed
/// for `reason`.
pub fn handoff_io_failure(step: HandoffIoStep, endpoint: &str, reason: &str) -> (r: BtError)
    ensures
        r matches BtError::Backend(m) && m@ == match step {
            HandoffIoStep::Connect => "cannot connect to "@ + endpoint@ + ": "@ + reason@,
            HandoffIoStep::Send => "send handoff: "@ + reason@,
            HandoffIoStep::Read => "read response: "@ + reason@,
        },
{
    let m = match step {
        HandoffIoStep::Connect => {
            let mut m = concat3("cannot connect to ", endpoint, ": ");
            m.append(reason);
            m
        }
        HandoffIoStep::Send => concat2("send handoff: ", reason),
        HandoffIoStep::Read => concat2("read response: ", reason),
    };
    BtError::Backend(m)
}

/// The error for an agent whose runtime could not be started for `reason`.
pub fn runtime_failure(reason: &str) -> (r: BtError)
    ensures
        r matches BtError::Backend(m) && m@ == "tokio runtime: "@ + reason@,
{
    BtError::Backend(concat2("tokio runtime: ", reason))
}

} // verus!
