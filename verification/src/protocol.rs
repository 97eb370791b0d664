//! The messages that agents exchange, and what a device looks like on the wire.
//! On the wire every message is one line of JSON.

use vstd::prelude::*;
use crate::text::push_char;

verus! {

/// How a handoff went on the receiving machine.
#[derive(Debug)]
pub enum HandoffStatus {
    Accepted,
    Connected,
    Failed(String),
    Rejected(String),
}

/// A message between a client and an agent.
#[derive(Debug)]
pub enum AgentMessage {
    HandoffRequest { device_name: String, bt_address: String, from_host: String },
    HandoffAck { device_name: String, status: HandoffStatus, message: String },
    Ping { hostname: String, version: String },
    Pong { hostname: String, version: String },
}

/// A paired Bluetooth device as a backend reports it.
#[derive(Debug)]
pub struct DeviceInfo {
    pub name: String,
    pub bt_address: String,
    pub connected: bool,
    pub paired: bool,
}

/// The devices of one machine.
#[derive(Debug)]
pub struct StatusReport {
    pub hostname: String,
    pub devices: Vec<DeviceInfo>,
}

/// What a device report says.
pub struct DeviceView {
    pub name: Seq<char>,
    pub bt_address: Seq<char>,
    pub connected: bool,
    pub paired: bool,
}

impl View for DeviceInfo {
    type V = DeviceView;

    open spec fn view(&self) -> DeviceView {
        DeviceView {
            name: self.name@,
            bt_address: self.bt_address@,
            connected: self.connected,
            paired: self.paired,
        }
    }
}

impl DeviceInfo {
    /// A copy with the same fields.
    pub fn duplicate(&self) -> (r: DeviceInfo)
        ensures
            r == *self,
    {
        DeviceInfo {
            name: self.name.clone(),
            bt_address: self.bt_address.clone(),
            connected: self.connected,
            paired: self.paired,
        }
    }
}

/// A serialised message followed by the newline that ends it on the wire.
pub open spec fn framed(body: Seq<char>) -> Seq<char> {
    body.push('\n')
}

/// Ends a serialised message with the newline that delimits it on the wire.
pub fn frame(body: String) -> (r: String)
    ensures
        r@ == framed(body@),
{
    let mut s = body;
    push_char(&mut s, '\n');
    s
}

} // verus!
