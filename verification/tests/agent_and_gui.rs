use bluetooth_switch::agent::{bind_failure, handoff_ack, handoff_address, read_failure, Agent};
use bluetooth_switch::backend::BluetoothBackend;
use bluetooth_switch::config::{Config, DeviceAlias};
use bluetooth_switch::error::BtError;
use bluetooth_switch::protocol::{frame, AgentMessage, DeviceInfo, HandoffStatus};
use bluetooth_switch::ui::{BtSwapApp, Tab};
use std::sync::{Arc, Mutex};

struct FakeBackend {
    devices: Vec<(String, String, bool)>,
    list_fails: bool,
    switch_fails: bool,
    calls: Arc<Mutex<Vec<String>>>,
}

impl FakeBackend {
    fn new(list_fails: bool, switch_fails: bool) -> FakeBackend {
        FakeBackend {
            devices: vec![
                ("Headphones".to_string(), "aa:01".to_string(), true),
                ("Mouse".to_string(), "aa:02".to_string(), false),
            ],
            list_fails,
            switch_fails,
            calls: Arc::new(Mutex::new(Vec::new())),
        }
    }
}

impl BluetoothBackend for FakeBackend {
    fn list_devices(&self) -> Result<Vec<DeviceInfo>, BtError> {
        self.calls.lock().unwrap().push("list".to_string());
        if self.list_fails {
            return Err(BtError::Backend("no adapter".to_string()));
        }
        Ok(self
            .devices
            .iter()
            .map(|(n, a, c)| DeviceInfo { name: n.clone(), bt_address: a.clone(), connected: *c, paired: true })
            .collect())
    }

    fn disconnect(&self, address: &str) -> Result<(), BtError> {
        self.calls.lock().unwrap().push(format!("disconnect {address}"));
        if self.switch_fails { Err(BtError::Permission("admin".to_string())) } else { Ok(()) }
    }

    fn connect(&self, address: &str) -> Result<(), BtError> {
        self.calls.lock().unwrap().push(format!("connect {address}"));
        if self.switch_fails { Err(BtError::Backend("busy".to_string())) } else { Ok(()) }
    }
}

fn config() -> Config {
    let mut c = Config::with_hostname(Some("laptop".to_string()));
    c.agent_port = 9500;
    c
}

#[test]
fn agent_listens_on_configured_port() {
    let agent = Agent::new(Box::new(FakeBackend::new(false, false)), config());
    assert_eq!(agent.listen_address(), "0.0.0.0:9500");
    assert_eq!(agent.config().identity.hostname, "laptop");
    assert_eq!(agent.share().listen_address(), "0.0.0.0:9500");
}

#[test]
fn agent_connects_on_handoff_request() {
    let agent = Agent::new(Box::new(FakeBackend::new(false, false)), config());
    let request = AgentMessage::HandoffRequest {
        device_name: "Mouse".to_string(),
        bt_address: "aa:02".to_string(),
        from_host: "desk".to_string(),
    };
    let reply = agent.handle_message("10.0.0.2:5000", Ok(request)).unwrap();
    assert!(reply.send_failure_is_error);
    match reply.message {
        AgentMessage::HandoffAck { device_name, status: HandoffStatus::Connected, message } => {
            assert_eq!(device_name, "Mouse");
            assert_eq!(message, "connected on laptop");
        }
        other => panic!("unexpected reply {other:?}"),
    }
}

#[test]
fn agent_reports_failed_connection() {
    let agent = Agent::new(Box::new(FakeBackend::new(false, true)), config());
    let request = AgentMessage::HandoffRequest {
        device_name: "Mouse".to_string(),
        bt_address: "aa:02".to_string(),
        from_host: "desk".to_string(),
    };
    let reply = agent.handle_message("peer", Ok(request)).unwrap();
    assert!(!reply.send_failure_is_error);
    match reply.message {
        AgentMessage::HandoffAck { status: HandoffStatus::Failed(reason), message, .. } => {
            assert_eq!(reason, "Bluetooth backend error: busy");
            assert_eq!(message, "");
        }
        other => panic!("unexpected reply {other:?}"),
    }
}

#[test]
fn agent_answers_ping_with_pong() {
    let agent = Agent::new(Box::new(FakeBackend::new(false, false)), config());
    let ping = AgentMessage::Ping { hostname: "desk".to_string(), version: "0.1.0".to_string() };
    let reply = agent.handle_message("peer", Ok(ping)).unwrap();
    match reply.message {
        AgentMessage::Pong { hostname, version } => {
            assert_eq!(hostname, "laptop");
            assert_eq!(version, "0.1.0");
        }
        other => panic!("unexpected reply {other:?}"),
    }
}

#[test]
fn agent_rejects_other_messages_and_garbage() {
    let agent = Agent::new(Box::new(FakeBackend::new(false, false)), config());
    let pong = AgentMessage::Pong { hostname: "x".to_string(), version: "1".to_string() };
    match agent.handle_message("1.2.3.4:9", Ok(pong)) {
        Err(BtError::Protocol(m)) => assert_eq!(m, "unexpected message type from 1.2.3.4:9"),
        _ => panic!(),
    }
    match agent.handle_message("p", Err("expected value".to_string())) {
        Err(BtError::Protocol(m)) => assert_eq!(m, "invalid message from p: expected value"),
        _ => panic!(),
    }
    match read_failure("p", "reset") {
        BtError::Protocol(m) => assert_eq!(m, "read from p: reset"),
        _ => panic!(),
    }
}

#[test]
fn handoff_ack_texts() {
    let ok = handoff_ack("D".to_string(), "host", Ok(()));
    assert!(matches!(ok.message, AgentMessage::HandoffAck { status: HandoffStatus::Connected, .. }));
    let bad = handoff_ack("D".to_string(), "host", Err(BtError::UnsupportedPlatform));
    match bad.message {
        AgentMessage::HandoffAck { status: HandoffStatus::Failed(r), .. } => assert_eq!(r, "Not supported on this platform"),
        _ => panic!(),
    }
}

#[test]
fn frames_end_with_newline() {
    assert_eq!(frame("{}".to_string()), "{}\n");
}

#[test]
fn error_messages_match_their_display() {
    assert_eq!(BtError::DeviceNotFound("x".to_string()).message(), "Device not found: x");
    assert_eq!(BtError::Config("bad".to_string()).message(), "Configuration error: bad");
    assert_eq!(BtError::Network("down".to_string()).message(), "Network error: down");
    assert_eq!(BtError::Serialization("eof".to_string()).message(), "Serialization error: eof");
    assert_eq!(BtError::Permission("no".to_string()).message(), "Permission denied: no");
    assert_eq!(BtError::Protocol("p".to_string()).message(), "Protocol error: p");
}

#[test]
fn gui_starts_with_device_list() {
    let app = BtSwapApp::new(Box::new(FakeBackend::new(false, false)), config());
    assert_eq!(app.devices.len(), 2);
    assert_eq!(app.status, "2 device(s) found");
    assert_eq!(app.error, "");
    assert!(app.tab == Tab::Devices);
    assert_eq!(app.handoff_port, "9400");
    let app = BtSwapApp::new(Box::new(FakeBackend::new(true, false)), config());
    assert!(app.devices.is_empty());
    assert_eq!(app.error, "Failed to list devices: Bluetooth backend error: no adapter");
}

#[test]
fn gui_resolves_aliases() {
    let mut c = config();
    c.devices.push(DeviceAlias { name: "Cans".to_string(), bt_address: Some("aa:01".to_string()) });
    let app = BtSwapApp::new(Box::new(FakeBackend::new(false, false)), c);
    assert_eq!(app.resolve_alias("aa:01"), Some("Cans"));
    assert_eq!(app.resolve_alias("aa:02"), None);
}

#[test]
fn gui_agent_button() {
    let mut app = BtSwapApp::new(Box::new(FakeBackend::new(false, false)), config());
    app.toggle_agent();
    assert!(!app.agent_running);
    assert_eq!(app.agent_log, vec!["Agent starting on port 9500...".to_string()]);
    assert_eq!(app.status, "Agent mode not available in GUI yet (use CLI: bluetooth-switch agent)");
    app.agent_running = true;
    app.toggle_agent();
    assert!(!app.agent_running);
    assert_eq!(app.agent_log.last().unwrap(), "Agent stopped");
}

#[test]
fn gui_alias_form() {
    let mut app = BtSwapApp::new(Box::new(FakeBackend::new(false, false)), config());
    app.alias_name = "  ".to_string();
    app.alias_address = "aa:01".to_string();
    assert!(!app.add_alias_from_form());
    assert!(app.config.devices.is_empty());
    app.alias_name = " Cans ".to_string();
    assert!(app.add_alias_from_form());
    assert_eq!(app.config.devices.len(), 1);
    assert_eq!(app.config.devices[0].name, "Cans");
    assert_eq!(app.config.devices[0].bt_address.as_deref(), Some("aa:01"));
    assert_eq!(app.alias_name, "");
    assert_eq!(app.alias_address, "");
    assert_eq!(app.status, "2 device(s) found");
    app.delete_alias("Cans");
    assert!(app.config.devices.is_empty());
}

#[test]
fn gui_end_of_frame_disconnects_and_prepares_handoff() {
    let mut app = BtSwapApp::new(Box::new(FakeBackend::new(false, false)), config());
    app.request_disconnect("aa:01".to_string());
    app.end_of_frame();
    assert!(app.disconnect_addr.is_none());
    assert_eq!(app.status, "2 device(s) found");
    app.request_handoff("Mouse".to_string(), "aa:02".to_string());
    app.end_of_frame();
    assert_eq!(app.handoff_addr, "aa:02");
    assert_eq!(app.status, "Ready to handoff Mouse");

    let mut failing = BtSwapApp::new(Box::new(FakeBackend::new(false, true)), config());
    failing.request_disconnect("aa:01".to_string());
    failing.end_of_frame();
    assert_eq!(failing.error, "Disconnect failed: Permission denied: admin");
}

#[test]
fn gui_tabs() {
    let mut app = BtSwapApp::new(Box::new(FakeBackend::new(false, false)), config());
    app.select_tab(Tab::Aliases);
    assert!(app.tab == Tab::Aliases);
    app.select_tab(Tab::Devices);
    assert!(app.tab == Tab::Devices);
    assert_eq!(app.status, "2 device(s) found");
}

#[test]
fn gui_handoff_plan_and_reply() {
    let mut app = BtSwapApp::new(Box::new(FakeBackend::new(false, false)), config());
    app.handoff_addr = "aa:02".to_string();
    app.handoff_port = "9401".to_string();
    let plan = app.begin_handoff().unwrap();
    assert_eq!(plan.remote, "aa:02:9401");
    assert_eq!(app.status, "Disconnected Mouse (aa:02)");
    match &plan.request {
        AgentMessage::HandoffRequest { device_name, bt_address, from_host } => {
            assert_eq!(device_name, "Mouse");
            assert_eq!(bt_address, "aa:02");
            assert_eq!(from_host, "laptop");
        }
        _ => panic!(),
    }
    app.finish_handoff(AgentMessage::HandoffAck {
        device_name: "Mouse".to_string(),
        status: HandoffStatus::Connected,
        message: "connected on desk".to_string(),
    });
    assert_eq!(app.status, "Handoff complete: connected on desk");
    assert_eq!(app.handoff_addr, "");
    app.finish_handoff(AgentMessage::HandoffAck {
        device_name: "Mouse".to_string(),
        status: HandoffStatus::Rejected("busy".to_string()),
        message: String::new(),
    });
    assert_eq!(app.error, "Handoff rejected: busy");
    app.finish_handoff(AgentMessage::Ping { hostname: "x".to_string(), version: "1".to_string() });
    assert_eq!(app.error, "Unexpected response from agent");
    app.handoff_unreachable("h:1", "refused");
    assert_eq!(app.error, "Cannot connect to agent at h:1: refused");
}

#[test]
fn gui_handoff_failures() {
    let mut app = BtSwapApp::new(Box::new(FakeBackend::new(false, false)), config());
    app.handoff_addr = "zz".to_string();
    assert!(app.begin_handoff().is_none());
    assert_eq!(app.error, "Device zz not found in paired list");
    let mut app = BtSwapApp::new(Box::new(FakeBackend::new(true, false)), config());
    app.handoff_addr = "aa:01".to_string();
    assert!(app.begin_handoff().is_none());
    assert_eq!(app.error, "Failed to list devices for handoff: Bluetooth backend error: no adapter");
    let mut app = BtSwapApp::new(Box::new(FakeBackend::new(false, true)), config());
    app.handoff_addr = "aa:01".to_string();
    assert!(app.begin_handoff().is_none());
    assert_eq!(app.error, "Disconnect failed: Permission denied: admin");
}

#[test]
fn handoff_address_only_for_requests() {
    let request = AgentMessage::HandoffRequest {
        device_name: "Mouse".to_string(),
        bt_address: "aa:02".to_string(),
        from_host: "desk".to_string(),
    };
    assert_eq!(handoff_address(&request), Some("aa:02"));
    let ping = AgentMessage::Ping { hostname: "h".to_string(), version: "1".to_string() };
    assert_eq!(handoff_address(&ping), None);
    match bind_failure("0.0.0.0:9400", "in use") {
        BtError::Backend(m) => assert_eq!(m, "cannot bind on 0.0.0.0:9400: in use"),
        _ => panic!(),
    }
}

#[test]
fn agent_connects_the_requested_address() {
    let backend = FakeBackend::new(false, false);
    let calls = backend.calls.clone();
    let agent = Agent::new(Box::new(backend), config());
    let request = AgentMessage::HandoffRequest {
        device_name: "Mouse".to_string(),
        bt_address: "aa:02".to_string(),
        from_host: "desk".to_string(),
    };
    assert!(agent.handle_message("p", Ok(request)).is_ok());
    assert_eq!(*calls.lock().unwrap(), vec!["connect aa:02".to_string()]);
}

#[test]
fn gui_disconnects_the_pending_address() {
    let backend = FakeBackend::new(false, false);
    let calls = backend.calls.clone();
    let mut app = BtSwapApp::new(Box::new(backend), config());
    app.request_disconnect("aa:01".to_string());
    app.end_of_frame();
    assert_eq!(calls.lock().unwrap()[1], "disconnect aa:01");
    app.handoff_addr = "aa:02".to_string();
    let _ = app.begin_handoff();
    assert!(calls.lock().unwrap().contains(&"disconnect aa:02".to_string()));
}

#[test]
fn gui_handoff_steps() {
    let mut app = BtSwapApp::new(Box::new(FakeBackend::new(false, false)), config());
    app.handoff_addr = "aa:02".to_string();
    app.handoff_port = "9400".to_string();
    assert!(app.handoff_from_listing(Err(BtError::Backend("gone".to_string()))).is_none());
    assert_eq!(app.error, "Failed to list devices for handoff: Bluetooth backend error: gone");
    assert!(app.handoff_from_listing(Ok(Vec::new())).is_none());
    assert_eq!(app.error, "Device aa:02 not found in paired list");
    let listed = vec![
        DeviceInfo { name: "First".to_string(), bt_address: "aa:02".to_string(), connected: false, paired: true },
        DeviceInfo { name: "Second".to_string(), bt_address: "aa:02".to_string(), connected: false, paired: true },
    ];
    let target = app.handoff_from_listing(Ok(listed)).unwrap();
    assert_eq!(target.name, "First");
    assert_eq!(BtSwapApp::handoff_disconnect_address(&target), "aa:02");
    let copy = DeviceInfo { name: target.name.clone(), bt_address: target.bt_address.clone(), connected: false, paired: true };
    assert!(app.handoff_after_disconnect(copy, Err(BtError::Permission("no".to_string()))).is_none());
    assert_eq!(app.error, "Disconnect failed: Permission denied: no");
    let plan = app.handoff_after_disconnect(target, Ok(())).unwrap();
    assert_eq!(app.status, "Disconnected First (aa:02)");
    assert_eq!(plan.remote, "aa:02:9400");
    match plan.request {
        AgentMessage::HandoffRequest { device_name, bt_address, from_host } => {
            assert_eq!((device_name.as_str(), bt_address.as_str(), from_host.as_str()), ("First", "aa:02", "laptop"));
        }
        _ => panic!(),
    }
}

#[test]
fn gui_takes_pending_disconnect() {
    let mut app = BtSwapApp::new(Box::new(FakeBackend::new(false, false)), config());
    assert_eq!(app.take_pending_disconnect(), None);
    app.request_disconnect("aa:01".to_string());
    assert_eq!(app.take_pending_disconnect(), Some("aa:01".to_string()));
    assert!(app.disconnect_addr.is_none());
}
