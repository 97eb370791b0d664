//! The state of the graphical front end and how it reacts to what the user does.
//! Drawing the widgets is the caller's; every change of state happens here.

use vstd::prelude::*;
use crate::backend::BluetoothBackend;
use crate::config::{surviving, alias_added, Config};
use crate::error::{error_text, BtError};
use crate::lookup::{alias_for_address, alias_name_for, device_with_address, find_device_with_address};
use crate::protocol::{AgentMessage, DeviceInfo, HandoffStatus};
use crate::text::{concat2, concat3, decimal, owned, push_decimal, trim, trimmed};

verus! {

/// The page the front end shows.
#[derive(PartialEq, Eq, Structural, Debug)]
pub enum Tab {
    Devices,
    Agent,
    Aliases,
}

/// The front end: the backend, the configuration and what the pages show and hold.
pub struct BtSwapApp {
    pub backend: Box<dyn BluetoothBackend>,
    pub config: Config,
    pub devices: Vec<DeviceInfo>,
    pub status: String,
    pub error: String,
    pub tab: Tab,
    pub alias_name: String,
    pub alias_address: String,
    pub handoff_addr: String,
    pub handoff_port: String,
    pub agent_running: bool,
    pub agent_log: Vec<String>,
    pub disconnect_addr: Option<String>,
    pub handoff_trigger: Option<(String, String)>,
}

/// A handoff ready to be sent: where the agent is and what to tell it.
pub struct HandoffPlan {
    pub remote: String,
    pub request: AgentMessage,
}

/// The status line after listing `n` devices.
pub open spec fn found_text(n: nat) -> Seq<char> {
    decimal(n) + " device(s) found"@
}

/// `after` is `before` with only its status line and error line possibly changed.
pub open spec fn same_but_messages(before: BtSwapApp, after: BtSwapApp) -> bool {
    &&& after.config == before.config
    &&& after.devices == before.devices
    &&& same_form(before, after)
}

/// The two states agree on everything but the configuration, the device list and
/// the messages.
pub open spec fn same_form(before: BtSwapApp, after: BtSwapApp) -> bool {
    &&& after.tab == before.tab
    &&& after.alias_name == before.alias_name
    &&& after.alias_address == before.alias_address
    &&& after.handoff_addr == before.handoff_addr
    &&& after.handoff_port == before.handoff_port
    &&& after.agent_running == before.agent_running
    &&& after.agent_log == before.agent_log
    &&& after.disconnect_addr == before.disconnect_addr
    &&& after.handoff_trigger == before.handoff_trigger
}

/// The two states agree on everything but the pending disconnection and handoff.
pub open spec fn same_but_pending(before: BtSwapApp, after: BtSwapApp) -> bool {
    &&& after.config == before.config
    &&& after.devices == before.devices
    &&& after.status == before.status
    &&& after.error == before.error
    &&& after.tab == before.tab
    &&& after.alias_name == before.alias_name
    &&& after.alias_address == before.alias_address
    &&& after.handoff_addr == before.handoff_addr
    &&& after.handoff_port == before.handoff_port
    &&& after.agent_running == before.agent_running
    &&& after.agent_log == before.agent_log
}

/// `mid` is `before` once a pending disconnection, if any, was carried out.
pub open spec fn pending_disconnect_done(before: BtSwapApp, mid: BtSwapApp) -> bool {
    match before.disconnect_addr {
        None => mid == before,
        Some(addr) => exists|taken: BtSwapApp, outcome: Result<(), BtError>| {
            &&& same_but_pending(before, taken)
            &&& taken.disconnect_addr is None
            &&& taken.handoff_trigger == before.handoff_trigger
            &&& #[trigger] disconnect_applied(taken, mid, addr@, outcome)
        },
    }
}

/// `after` is `mid` once a pending handoff, if any, filled in the handoff form.
pub open spec fn pending_handoff_done(mid: BtSwapApp, after: BtSwapApp) -> bool {
    match mid.handoff_trigger {
        None => after == mid,
        Some((name, addr)) => {
            &&& after.config == mid.config
            &&& after.devices == mid.devices
            &&& after.error == mid.error
            &&& after.tab == mid.tab
            &&& after.alias_name == mid.alias_name
            &&& after.alias_address == mid.alias_address
            &&& after.handoff_port == mid.handoff_port
            &&& after.agent_running == mid.agent_running
            &&& after.agent_log == mid.agent_log
            &&& after.disconnect_addr == mid.disconnect_addr
            &&& after.handoff_trigger is None
            &&& after.handoff_addr == addr
            &&& after.status@ == "Ready to handoff "@ + name@
        },
    }
}

/// `after` is `before` once the device list came back as `listed`: on success the
/// list is replaced, the status counts it and the error is cleared; on failure only
/// the error changes.
pub open spec fn device_list_applied(before: BtSwapApp, after: BtSwapApp, listed: Result<Vec<DeviceInfo>, BtError>) -> bool {
    &&& after.config == before.config
    &&& same_form(before, after)
    &&& match listed {
        Ok(d) => {
            &&& after.devices == d
            &&& after.status@ == found_text(d@.len())
            &&& after.error@ == ""@
        },
        Err(e) => {
            &&& after.devices == before.devices
            &&& after.status == before.status
            &&& after.error@ == "Failed to list devices: "@ + error_text(e)
        },
    }
}

/// `after` is `before` once the device list was asked for again.
pub open spec fn refreshed(before: BtSwapApp, after: BtSwapApp) -> bool {
    exists|listed: Result<Vec<DeviceInfo>, BtError>| device_list_applied(before, after, listed)
}

/// `after` is `before` once the disconnection of `addr` gave `outcome`: on success
/// the status says so and the list is refreshed; on failure only the error changes.
pub open spec fn disconnect_applied(before: BtSwapApp, after: BtSwapApp, addr: Seq<char>, outcome: Result<(), BtError>) -> bool {
    match outcome {
        Ok(()) => exists|mid: BtSwapApp| {
            &&& same_but_messages(before, mid)
            &&& mid.status@ == "Disconnected "@ + addr
            &&& #[trigger] refreshed(mid, after)
        },
        Err(e) => {
            &&& same_but_messages(before, after)
            &&& after.status == before.status
            &&& after.error@ == "Disconnect failed: "@ + error_text(e)
        },
    }
}

/// `after` is `before` once the device list for a handoff came back as `listed`,
/// and `r` is the device found at the address in the handoff form.
pub open spec fn handoff_listing_applied(before: BtSwapApp, after: BtSwapApp, listed: Result<Vec<DeviceInfo>, BtError>, r: Option<DeviceInfo>) -> bool {
    &&& same_but_messages(before, after)
    &&& after.status == before.status
    &&& match listed {
        Err(e) => r is None && after.error@ == "Failed to list devices for handoff: "@ + error_text(e),
        Ok(ds) => match device_with_address(ds@, before.handoff_addr@) {
            None => r is None && after.error@ == "Device "@ + before.handoff_addr@ + " not found in paired list"@,
            Some(k) => r == Some(ds@[k]) && after.error == before.error,
        },
    }
}

/// `after` is `before` once disconnecting the handoff's `target` gave `outcome`, and
/// `r` is the plan for the rest of the handoff.
pub open spec fn handoff_disconnect_applied(before: BtSwapApp, after: BtSwapApp, target: DeviceInfo, outcome: Result<(), BtError>, r: Option<HandoffPlan>) -> bool {
    &&& same_but_messages(before, after)
    &&& match outcome {
        Err(e) => {
            &&& r is None
            &&& after.status == before.status
            &&& after.error@ == "Disconnect failed: "@ + error_text(e)
        },
        Ok(()) => {
            &&& after.error == before.error
            &&& after.status@ == "Disconnected "@ + target.name@ + " ("@ + target.bt_address@ + ")"@
            &&& r matches Some(plan)
            &&& plan.remote@ == before.handoff_addr@ + ":"@ + before.handoff_port@
            &&& plan.request matches AgentMessage::HandoffRequest { device_name, bt_address, from_host }
                && device_name@ == target.name@ && bt_address@ == target.bt_address@
                && from_host@ == before.config.identity.hostname@
        },
    }
}

/// `after` is `before` once a handoff was started, `r` the plan it left: the device
/// list came back somehow and was taken in; where it gave a device, that device's
/// disconnection came out somehow and was taken in.
pub open spec fn handoff_begun(before: BtSwapApp, after: BtSwapApp, r: Option<HandoffPlan>) -> bool {
    exists|listed: Result<Vec<DeviceInfo>, BtError>, mid: BtSwapApp, t: Option<DeviceInfo>| {
        &&& #[trigger] handoff_listing_applied(before, mid, listed, t)
        &&& match t {
            None => after == mid && r is None,
            Some(target) => exists|outcome: Result<(), BtError>|
                #[trigger] handoff_disconnect_applied(mid, after, target, outcome, r),
        }
    }
}

/// What the front end shows once the agent answered a handoff with `reply`.
pub open spec fn handoff_reply_applied(before: BtSwapApp, after: BtSwapApp, reply: AgentMessage) -> bool {
    &&& after.config == before.config
    &&& after.devices == before.devices
    &&& after.tab == before.tab
    &&& after.alias_name == before.alias_name
    &&& after.alias_address == before.alias_address
    &&& after.handoff_port == before.handoff_port
    &&& after.agent_running == before.agent_running
    &&& after.agent_log == before.agent_log
    &&& after.disconnect_addr == before.disconnect_addr
    &&& after.handoff_trigger == before.handoff_trigger
    &&& match reply {
        AgentMessage::HandoffAck { status: HandoffStatus::Connected, message, .. } => {
            &&& after.status@ == "Handoff complete: "@ + message@
            &&& after.error == before.error
            &&& after.handoff_addr@ == ""@
        },
        AgentMessage::HandoffAck { status: HandoffStatus::Accepted, .. } => {
            &&& after.status@ == "Handoff accepted, waiting for connection"@
            &&& after.error == before.error
            &&& after.handoff_addr == before.handoff_addr
        },
        AgentMessage::HandoffAck { status: HandoffStatus::Failed(reason), .. } => {
            &&& after.status == before.status
            &&& after.error@ == "Handoff failed: "@ + reason@
            &&& after.handoff_addr == before.handoff_addr
        },
        AgentMessage::HandoffAck { status: HandoffStatus::Rejected(reason), .. } => {
            &&& after.status == before.status
            &&& after.error@ == "Handoff rejected: "@ + reason@
            &&& after.handoff_addr == before.handoff_addr
        },
        _ => {
            &&& after.status == before.status
            &&& after.error@ == "Unexpected response from agent"@
            &&& after.handoff_addr == before.handoff_addr
        },
    }
}

/// What a new front end shows once its first device listing gave `listed`.
pub open spec fn first_list_shown(app: BtSwapApp, listed: Result<Vec<DeviceInfo>, BtError>) -> bool {
    match listed {
        Ok(d) => app.devices == d && app.status@ == found_text(d@.len()) && app.error@ == ""@,
        Err(e) => app.devices@.len() == 0 && app.status@ == ""@ && app.error@ == "Failed to list devices: "@ + error_text(e),
    }
}

impl BtSwapApp {
    /// The front end on the devices page, with the device list fetched once.
    pub fn new(backend: Box<dyn BluetoothBackend>, config: Config) -> (r: BtSwapApp)
        ensures
            r.config == config,
            r.tab == Tab::Devices,
            r.alias_name@ == ""@,
            r.alias_address@ == ""@,
            r.handoff_addr@ == ""@,
            r.handoff_port@ == "9400"@,
            !r.agent_running,
            r.agent_log@.len() == 0,
            r.disconnect_addr is None,
            r.handoff_trigger is None,
            exists|listed: Result<Vec<DeviceInfo>, BtError>| #[trigger] first_list_shown(r, listed),
    {
        let mut app = BtSwapApp {
            devices: Vec::new(),
            status: owned(""),
            error: owned(""),
            tab: Tab::Devices,
            alias_name: owned(""),
            alias_address: owned(""),
            handoff_addr: owned(""),
            handoff_port: owned("9400"),
            agent_running: false,
            agent_log: Vec::new(),
            disconnect_addr: None,
            handoff_trigger: None,
            backend,
            config,
        };
        let ghost app0 = app;
        app.refresh_devices();
        proof {
            let listed = choose|l: Result<Vec<DeviceInfo>, BtError>| device_list_applied(app0, app, l);
            assert(first_list_shown(app, listed));
        }
        app
    }

    /// Takes in the outcome of listing the devices.
    pub fn apply_device_list(&mut self, listed: Result<Vec<DeviceInfo>, BtError>)
        ensures
            device_list_applied(*old(self), *final(self), listed),
    {
        match listed {
            Ok(d) => {
                self.devices = d;
                let mut s = String::new();
                push_decimal(&mut s, self.devices.len() as u64);
                s.append(" device(s) found");
                self.status = s;
                self.error = owned("");
                assert(self.status@ =~= found_text(self.devices@.len()));
            }
            Err(e) => {
                self.error = concat2("Failed to list devices: ", e.message().as_str());
            }
        }
    }

    /// Asks the backend for the devices again and takes in the outcome.
    pub fn refresh_devices(&mut self)
        ensures
            refreshed(*old(self), *final(self)),
    {
        let listed = self.backend.list_devices();
        let ghost l = listed;
        self.apply_device_list(listed);
        assert(device_list_applied(*old(self), *self, l));
    }

    /// The name of the first alias bound to `addr`, if there is one.
    pub fn resolve_alias(&self, addr: &str) -> (r: Option<&str>)
        ensures
            match alias_for_address(self.config.devices@, addr@) {
                Some(i) => r matches Some(n) && n@ == self.config.devices@[i].name@,
                None => r is None,
            },
    {
        alias_name_for(&self.config.devices, addr)
    }

    /// Shows another page; the devices page fetches the list again.
    pub fn select_tab(&mut self, tab: Tab)
        ensures
            final(self).tab == tab,
            tab == Tab::Devices ==> exists|mid: BtSwapApp| #[trigger] refreshed(mid, *final(self))
                && mid.config == old(self).config && mid.devices == old(self).devices
                && mid.status == old(self).status && mid.error == old(self).error,
            tab != Tab::Devices ==> final(self).config == old(self).config
                && final(self).devices == old(self).devices && final(self).status == old(self).status
                && final(self).error == old(self).error
                && final(self).alias_name == old(self).alias_name
                && final(self).alias_address == old(self).alias_address
                && final(self).handoff_addr == old(self).handoff_addr
                && final(self).handoff_port == old(self).handoff_port
                && final(self).agent_running == old(self).agent_running
                && final(self).agent_log == old(self).agent_log
                && final(self).disconnect_addr == old(self).disconnect_addr
                && final(self).handoff_trigger == old(self).handoff_trigger,
    {
        let is_devices = tab == Tab::Devices;
        self.tab = tab;
        if is_devices {
            let ghost mid = *self;
            self.refresh_devices();
            assert(refreshed(mid, *self));
        }
    }

    /// Marks the device with address `addr` for disconnection at the end of the frame.
    pub fn request_disconnect(&mut self, addr: String)
        ensures
            final(self).disconnect_addr == Some(addr),
            same_but_pending(*old(self), *final(self)),
            final(self).handoff_trigger == old(self).handoff_trigger,
    {
        self.disconnect_addr = Some(addr);
    }

    /// Marks the device `name` with address `addr` for a handoff at the end of the frame.
    pub fn request_handoff(&mut self, name: String, addr: String)
        ensures
            final(self).handoff_trigger == Some((name, addr)),
            same_but_pending(*old(self), *final(self)),
            final(self).disconnect_addr == old(self).disconnect_addr,
    {
        self.handoff_trigger = Some((name, addr));
    }

    /// Takes in the outcome of disconnecting `addr`.
    pub fn apply_disconnect(&mut self, addr: String, outcome: Result<(), BtError>)
        ensures
            disconnect_applied(*old(self), *final(self), addr@, outcome),
    {
        match outcome {
            Ok(()) => {
                self.status = concat2("Disconnected ", addr.as_str());
                let ghost mid = *self;
                self.refresh_devices();
                assert(refreshed(mid, *self));
            }
            Err(e) => {
                self.error = concat2("Disconnect failed: ", e.message().as_str());
            }
        }
    }

    /// Takes out the address of the pending disconnection, if any; nothing else changes.
    pub fn take_pending_disconnect(&mut self) -> (r: Option<String>)
        ensures
            r == old(self).disconnect_addr,
            r is None ==> *final(self) == *old(self),
            final(self).disconnect_addr is None,
            final(self).handoff_trigger == old(self).handoff_trigger,
            same_but_pending(*old(self), *final(self)),
    {
        self.disconnect_addr.take()
    }

    /// What happens at the end of a frame: a pending disconnection is carried out,
    /// then a pending handoff fills in the handoff form.
    pub fn end_of_frame(&mut self)
        ensures
            final(self).disconnect_addr is None,
            final(self).handoff_trigger is None,
            exists|mid: BtSwapApp| pending_disconnect_done(*old(self), mid) && #[trigger] pending_handoff_done(mid, *final(self)),
    {
        if let Some(addr) = self.take_pending_disconnect() {
            let ghost taken = *self;
            let outcome = self.backend.disconnect(addr.as_str());
            let ghost o = outcome;
            self.apply_disconnect(addr, outcome);
            assert(disconnect_applied(taken, *self, addr@, o));
        }
        let ghost mid = *self;
        assert(pending_disconnect_done(*old(self), mid));
        if let Some((name, addr)) = self.handoff_trigger.take() {
            self.handoff_addr = addr;
            self.status = concat2("Ready to handoff ", name.as_str());
        }
        assert(pending_handoff_done(mid, *self));
    }

    /// The agent button: stopping is logged; starting is logged and the status says
    /// that the front end cannot run an agent.
    pub fn toggle_agent(&mut self)
        ensures
            !final(self).agent_running,
            old(self).agent_running ==> final(self).agent_log@ == old(self).agent_log@.push(final(self).agent_log@.last())
                && final(self).agent_log@.last()@ == "Agent stopped"@
                && final(self).status == old(self).status,
            !old(self).agent_running ==> final(self).agent_log@ == old(self).agent_log@.push(final(self).agent_log@.last())
                && final(self).agent_log@.last()@ == "Agent starting on port "@ + decimal(old(self).config.agent_port as nat) + "..."@
                && final(self).status@ == "Agent mode not available in GUI yet (use CLI: bluetooth-switch agent)"@,
            final(self).config == old(self).config,
            final(self).devices == old(self).devices,
            final(self).error == old(self).error,
            final(self).tab == old(self).tab,
            final(self).alias_name == old(self).alias_name,
            final(self).alias_address == old(self).alias_address,
            final(self).handoff_addr == old(self).handoff_addr,
            final(self).handoff_port == old(self).handoff_port,
            final(self).disconnect_addr == old(self).disconnect_addr,
            final(self).handoff_trigger == old(self).handoff_trigger,
    {
        if self.agent_running {
            self.agent_running = false;
            self.agent_log.push(owned("Agent stopped"));
        } else {
            let mut line = owned("Agent starting on port ");
            push_decimal(&mut line, self.config.agent_port as u64);
            line.append("...");
            self.agent_log.push(line);
            self.status = owned("Agent mode not available in GUI yet (use CLI: bluetooth-switch agent)");
        }
    }

    /// The "Add Alias" button: with a name and an address filled in (surrounding white
    /// space ignored) the alias is bound, the status says so, the form is cleared and
    /// the device list fetched again. Returns whether the configuration changed, so
    /// that the caller saves it.
    pub fn add_alias_from_form(&mut self) -> (saved: bool)
        ensures
            saved == (trimmed(old(self).alias_name@).len() > 0 && trimmed(old(self).alias_address@).len() > 0),
            !saved ==> *final(self) == *old(self),
            saved ==> exists|mid: BtSwapApp| {
                &&& alias_added(old(self).config.devices@, mid.config.devices@,
                    trimmed(old(self).alias_name@), trimmed(old(self).alias_address@))
                &&& mid.status@ == "Alias '"@ + trimmed(old(self).alias_name@) + "' saved"@
                &&& mid.alias_name@ == ""@
                &&& mid.alias_address@ == ""@
                &&& mid.config.agent_port == old(self).config.agent_port
                &&& mid.config.identity == old(self).config.identity
                &&& mid.config.peers == old(self).config.peers
                &&& mid.devices == old(self).devices
                &&& mid.error == old(self).error
                &&& mid.tab == old(self).tab
                &&& mid.handoff_addr == old(self).handoff_addr
                &&& mid.handoff_port == old(self).handoff_port
                &&& mid.agent_running == old(self).agent_running
                &&& mid.agent_log == old(self).agent_log
                &&& mid.disconnect_addr == old(self).disconnect_addr
                &&& mid.handoff_trigger == old(self).handoff_trigger
                &&& #[trigger] refreshed(mid, *final(self))
            },
    {
        let name = trim(self.alias_name.as_str());
        let addr = trim(self.alias_address.as_str());
        if name.unicode_len() == 0 || addr.unicode_len() == 0 {
            return false;
        }
        self.config.add_alias(name.as_str(), addr.as_str());
        self.status = concat3("Alias '", name.as_str(), "' saved");
        self.alias_name = owned("");
        self.alias_address = owned("");
        let ghost mid = *self;
        self.refresh_devices();
        assert(refreshed(mid, *self));
        true
    }

    /// The "Delete" button of the alias `name`: every alias so named goes and the
    /// device list is fetched again. The caller saves the configuration.
    pub fn delete_alias(&mut self, name: &str)
        ensures
            final(self).config.devices@ == surviving(old(self).config.devices@, name@, None),
            exists|mid: BtSwapApp| #[trigger] refreshed(mid, *final(self))
                && mid.config.devices@ == surviving(old(self).config.devices@, name@, None)
                && mid.config.agent_port == old(self).config.agent_port
                && mid.config.identity == old(self).config.identity
                && mid.config.peers == old(self).config.peers
                && mid.devices == old(self).devices
                && mid.status == old(self).status
                && mid.error == old(self).error
                && same_form(*old(self), mid),
    {
        self.config.remove_alias_named(name);
        let ghost mid = *self;
        self.refresh_devices();
        assert(refreshed(mid, *self));
    }

    /// The device a handoff is about, once the device list came back as `listed`:
    /// the first device at the address in the handoff form. Where the list failed or
    /// holds no such device, the error says so and there is none.
    pub fn handoff_from_listing(&mut self, listed: Result<Vec<DeviceInfo>, BtError>) -> (r: Option<DeviceInfo>)
        ensures
            handoff_listing_applied(*old(self), *final(self), listed, r),
    {
        let devices = match listed {
            Ok(d) => d,
            Err(e) => {
                self.error = concat2("Failed to list devices for handoff: ", e.message().as_str());
                return None;
            }
        };
        match find_device_with_address(devices.as_slice(), self.handoff_addr.as_str()) {
            Some(k) => Some(devices[k].duplicate()),
            None => {
                self.error = concat3("Device ", self.handoff_addr.as_str(), " not found in paired list");
                None
            }
        }
    }

    /// The address to disconnect for a handoff of `target`: its own.
    pub fn handoff_disconnect_address(target: &DeviceInfo) -> (r: &str)
        ensures
            r@ == target.bt_address@,
    {
        target.bt_address.as_str()
    }

    /// The handoff of `target`, once disconnecting it gave `outcome`: on success the
    /// status says so and the plan says where the agent is and what to send it; on
    /// failure the error says so and there is no plan.
    pub fn handoff_after_disconnect(&mut self, target: DeviceInfo, outcome: Result<(), BtError>) -> (r: Option<HandoffPlan>)
        ensures
            handoff_disconnect_applied(*old(self), *final(self), target, outcome, r),
    {
        match outcome {
            Ok(()) => {
                let mut s = concat3("Disconnected ", target.name.as_str(), " (");
                s.append(target.bt_address.as_str());
                s.append(")");
                self.status = s;
                let remote = concat3(self.handoff_addr.as_str(), ":", self.handoff_port.as_str());
                let request = AgentMessage::HandoffRequest {
                    device_name: target.name,
                    bt_address: target.bt_address,
                    from_host: self.config.identity.hostname.clone(),
                };
                Some(HandoffPlan { remote, request })
            }
            Err(e) => {
                self.error = concat2("Disconnect failed: ", e.message().as_str());
                None
            }
        }
    }

    /// The "Send Handoff" button, up to the network: the device list is fetched, the
    /// device at the address in the form is looked up in it and disconnected; the plan
    /// says where the agent is and what to send it. Where a step fails, the error says
    /// which, and there is no plan.
    pub fn begin_handoff(&mut self) -> (r: Option<HandoffPlan>)
        ensures
            handoff_begun(*old(self), *final(self), r),
    {
        let listed = self.backend.list_devices();
        let ghost l = listed;
        let ghost before = *self;
        let target = self.handoff_from_listing(listed);
        let ghost mid = *self;
        let ghost t = target;
        assert(handoff_listing_applied(before, mid, l, t));
        match target {
            None => {
                assert(handoff_begun(before, *self, None));
                None
            }
            Some(target) => {
                let outcome = self.backend.disconnect(Self::handoff_disconnect_address(&target));
                let ghost o = outcome;
                let plan = self.handoff_after_disconnect(target, outcome);
                assert(handoff_disconnect_applied(mid, *self, target, o, plan));
                assert(handoff_begun(before, *self, plan));
                plan
            }
        }
    }

    /// The agent at `remote` could not be reached (`reason` says why).
    pub fn handoff_unreachable(&mut self, remote: &str, reason: &str)
        ensures
            same_but_messages(*old(self), *final(self)),
            final(self).status == old(self).status,
            final(self).error@ == "Cannot connect to agent at "@ + remote@ + ": "@ + reason@,
    {
        let mut m = concat3("Cannot connect to agent at ", remote, ": ");
        m.append(reason);
        self.error = m;
    }

    /// Takes in the agent's answer to a handoff.
    pub fn finish_handoff(&mut self, reply: AgentMessage)
        ensures
            handoff_reply_applied(*old(self), *final(self), reply),
    {
        match reply {
            AgentMessage::HandoffAck { status, message, .. } => match status {
                HandoffStatus::Connected => {
                    self.status = concat2("Handoff complete: ", message.as_str());
                    self.handoff_addr = owned("");
                }
                HandoffStatus::Accepted => {
                    self.status = owned("Handoff accepted, waiting for connection");
                }
                HandoffStatus::Failed(reason) => {
                    self.error = concat2("Handoff failed: ", reason.as_str());
                }
                HandoffStatus::Rejected(reason) => {
                    self.error = concat2("Handoff rejected: ", reason.as_str());
                }
            },
            _ => {
                self.error = owned("Unexpected response from agent");
            }
        }
    }
}

/// A handoff is reported done only when the agent says the device connected: after
/// a `Failed` answer the error line gives the reason, the status line stays as it was
/// and the handoff form keeps its address; only a `Connected` answer clears that
/// address, and only a `Connected` or `Accepted` answer changes the status line.
pub proof fn law_only_connected_handoff_completes(before: BtSwapApp, after: BtSwapApp, reply: AgentMessage)
    requires
        handoff_reply_applied(before, after, reply),
    ensures
        reply matches AgentMessage::HandoffAck { status: HandoffStatus::Failed(reason), .. } ==> {
            &&& after.error@ == "Handoff failed: "@ + reason@
            &&& after.status == before.status
            &&& after.handoff_addr == before.handoff_addr
        },
        after.handoff_addr != before.handoff_addr
            ==> reply matches AgentMessage::HandoffAck { status: HandoffStatus::Connected, .. },
        after.status != before.status ==> {
            ||| reply matches AgentMessage::HandoffAck { status: HandoffStatus::Connected, .. }
            ||| reply matches AgentMessage::HandoffAck { status: HandoffStatus::Accepted, .. }
        },
{
}

} // verus!
