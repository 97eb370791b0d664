//! The agent: it waits for requests from other machines and answers them. The
//! network plumbing is the caller's; what to answer is decided here.

use vstd::prelude::*;
use std::sync::Arc;
use crate::backend::BluetoothBackend;
use crate::config::Config;
use crate::error::{error_text, BtError};
use crate::protocol::{AgentMessage, HandoffStatus};
use crate::text::{concat2, concat3, decimal, owned, push_decimal};

verus! {

/// An agent: the backend it switches devices with and the configuration it runs under.
pub struct Agent {
    backend: Arc<Box<dyn BluetoothBackend>>,
    config: Arc<Config>,
}

/// The answer to send back, and whether failing to send it is an error of the exchange.
pub struct AgentReply {
    pub message: AgentMessage,
    pub send_failure_is_error: bool,
}

/// Calls `Arc::clone`: another handle on the same value.
#[verifier::external_body]
fn share<T: ?Sized>(a: &Arc<T>) -> (r: Arc<T>)
    ensures
        r == *a,
{
    Arc::clone(a)
}

/// The acknowledgment of a handoff of `device_name` on the machine `hostname`, after
/// the attempt to connect the device gave `outcome`.
pub open spec fn handoff_ack_for(device_name: String, hostname: Seq<char>, outcome: Result<(), BtError>, reply: AgentReply) -> bool {
    match outcome {
        Ok(()) => {
            &&& reply.message matches AgentMessage::HandoffAck { device_name: d, status: HandoffStatus::Connected, message }
                && d == device_name && message@ == "connected on "@ + hostname
            &&& reply.send_failure_is_error
        },
        Err(e) => {
            &&& reply.message matches AgentMessage::HandoffAck { device_name: d, status: HandoffStatus::Failed(reason), message }
                && d == device_name && reason@ == error_text(e) && message@ == ""@
            &&& !reply.send_failure_is_error
        },
    }
}

/// The acknowledgment of a handoff: connected, with this machine's name, or failed,
/// with the reason. Only the connected answer must reach the requester.
pub fn handoff_ack(device_name: String, hostname: &str, outcome: Result<(), BtError>) -> (r: AgentReply)
    ensures
        handoff_ack_for(device_name, hostname@, outcome, r),
{
    match outcome {
        Ok(()) => AgentReply {
            message: AgentMessage::HandoffAck {
                device_name,
                status: HandoffStatus::Connected,
                message: concat2("connected on ", hostname),
            },
            send_failure_is_error: true,
        },
        Err(e) => AgentReply {
            message: AgentMessage::HandoffAck {
                device_name,
                status: HandoffStatus::Failed(e.message()),
                message: owned(""),
            },
            send_failure_is_error: false,
        },
    }
}

/// The address of the device that a message asks this machine to connect: that of
/// a handoff request, and none for any other message.
pub fn handoff_address(msg: &AgentMessage) -> (r: Option<&str>)
    ensures
        match *msg {
            AgentMessage::HandoffRequest { bt_address, .. } => r matches Some(a) && a@ == bt_address@,
            _ => r is None,
        },
{
    match msg {
        AgentMessage::HandoffRequest { bt_address, .. } => Some(bt_address.as_str()),
        _ => None,
    }
}

/// The error for an agent that could not listen on `address` for `reason`.
pub fn bind_failure(address: &str, reason: &str) -> (r: BtError)
    ensures
        r matches BtError::Backend(m) && m@ == "cannot bind on "@ + address@ + ": "@ + reason@,
{
    let mut m = concat3("cannot bind on ", address, ": ");
    m.append(reason);
    BtError::Backend(m)
}

/// The error for a request line that could not be read from `peer`.
pub fn read_failure(peer: &str, reason: &str) -> (r: BtError)
    ensures
        r matches BtError::Protocol(m) && m@ == "read from "@ + peer@ + ": "@ + reason@,
{
    let mut m = concat3("read from ", peer, ": ");
    m.append(reason);
    BtError::Protocol(m)
}

impl Agent {
    /// An agent that switches devices with `backend` and runs under `config`.
    pub fn new(backend: Box<dyn BluetoothBackend>, config: Config) -> (r: Agent)
        ensures
            r.configuration() == config,
            *r.switcher() == backend,
    {
        let b = Arc::new(backend);
        let r = Agent { backend: b, config: Arc::new(config) };
        assert(*b == backend);
        r
    }

    /// The configuration the agent runs under.
    pub closed spec fn configuration(&self) -> Config {
        *self.config
    }

    /// The backend the agent switches devices with.
    pub closed spec fn switcher(&self) -> Arc<Box<dyn BluetoothBackend>> {
        self.backend
    }

    /// Another handle on the same agent, for serving a connection.
    pub fn share(&self) -> (r: Agent)
        ensures
            r.configuration() == self.configuration(),
            r.switcher() == self.switcher(),
    {
        Agent { backend: share(&self.backend), config: share(&self.config) }
    }

    /// The configuration the agent runs under.
    pub fn config(&self) -> (r: &Config)
        ensures
            *r == self.configuration(),
    {
        &self.config
    }

    /// Where the agent listens: every interface, on the configured port.
    pub fn listen_address(&self) -> (r: String)
        ensures
            r@ == "0.0.0.0:"@ + decimal(self.configuration().agent_port as nat),
    {
        let mut s = owned("0.0.0.0:");
        push_decimal(&mut s, self.config.agent_port as u64);
        s
    }

    /// The answer to what `peer` sent (`received`: the message, or why it does not
    /// parse). A handoff request makes the backend connect the device and is
    /// acknowledged with the outcome; a ping is answered with a pong that carries
    /// this machine's name and the ping's version; anything else, and anything that
    /// does not parse, is a protocol error.
    pub fn handle_message(&self, peer: &str, received: Result<AgentMessage, String>) -> (r: Result<AgentReply, BtError>)
        ensures
            match received {
                Err(reason) => r matches Err(BtError::Protocol(m))
                    && m@ == "invalid message from "@ + peer@ + ": "@ + reason@,
                Ok(AgentMessage::HandoffRequest { device_name, .. }) => r matches Ok(reply)
                    && (handoff_ack_for(device_name, self.configuration().identity.hostname@, Ok(()), reply)
                        || exists|e: BtError| handoff_ack_for(device_name, self.configuration().identity.hostname@, Err(e), reply)),
                Ok(AgentMessage::Ping { version, .. }) => r matches Ok(reply)
                    && reply.message matches AgentMessage::Pong { hostname, version: v }
                    && hostname@ == self.configuration().identity.hostname@ && v == version
                    && reply.send_failure_is_error,
                Ok(_) => r matches Err(BtError::Protocol(m)) && m@ == "unexpected message type from "@ + peer@,
            },
    {
        match received {
            Err(reason) => {
                let mut m = concat3("invalid message from ", peer, ": ");
                m.append(reason.as_str());
                Err(BtError::Protocol(m))
            }
            Ok(msg) => {
                if let Some(address) = handoff_address(&msg) {
                    let outcome = self.backend.connect(address);
                    let ghost o = outcome;
                    let device_name = match msg {
                        AgentMessage::HandoffRequest { device_name, .. } => device_name,
                        _ => owned(""),
                    };
                    let reply = handoff_ack(device_name, self.config.identity.hostname.as_str(), outcome);
                    proof {
                        if let Err(e) = o {
                            assert(handoff_ack_for(device_name, self.configuration().identity.hostname@, Err(e), reply));
                        }
                    }
                    Ok(reply)
                } else {
                    match msg {
                        AgentMessage::Ping { hostname: _, version } => {
                            let hostname = self.config.identity.hostname.clone();
                            Ok(AgentReply { message: AgentMessage::Pong { hostname, version }, send_failure_is_error: true })
                        }
                        _ => Err(BtError::Protocol(concat2("unexpected message type from ", peer))),
                    }
                }
            }
        }
    }
}

} // verus!
