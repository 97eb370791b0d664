use bluetooth_switch::config::{Config, DeviceAlias};
use bluetooth_switch::lookup::{alias_name_for, find_device, resolve_alias};
use bluetooth_switch::protocol::DeviceInfo;
use bluetooth_switch::report::{devices_with_state, list_lines, status_lines};

fn device(name: &str, address: &str, connected: bool) -> DeviceInfo {
    DeviceInfo { name: name.to_string(), bt_address: address.to_string(), connected, paired: true }
}

fn config_with(aliases: Vec<(&str, Option<&str>)>) -> Config {
    let mut c = Config::with_hostname(Some("desk".to_string()));
    c.devices = aliases
        .into_iter()
        .map(|(n, a)| DeviceAlias { name: n.to_string(), bt_address: a.map(|s| s.to_string()) })
        .collect();
    c
}

fn sample() -> Vec<DeviceInfo> {
    vec![
        device("WH-1000XM4", "aa:bb:cc:dd:ee:01", true),
        device("Magic Mouse", "aa:bb:cc:dd:ee:02", false),
    ]
}

#[test]
fn find_device_by_alias_ignores_case() {
    let c = config_with(vec![("Buds", Some("aa:bb:cc:dd:ee:02"))]);
    let d = sample();
    let found = find_device(&c, &d, "bUDS").unwrap();
    assert_eq!(found.bt_address, "aa:bb:cc:dd:ee:02");
}

#[test]
fn find_device_falls_back_to_name_and_address() {
    let c = config_with(vec![("ghost", Some("00:00")), ("nameless", None)]);
    let d = sample();
    assert_eq!(find_device(&c, &d, "magic mouse").unwrap().name, "Magic Mouse");
    assert_eq!(find_device(&c, &d, "AA:BB:CC:DD:EE:01").unwrap().name, "WH-1000XM4");
    assert!(find_device(&c, &d, "ghost").is_none());
    assert!(find_device(&c, &d, "nameless").is_none());
}

#[test]
fn find_device_after_alias_is_bound() {
    let mut c = config_with(vec![("other", Some("aa:bb:cc:dd:ee:01"))]);
    let d = sample();
    c.add_alias("desk mouse", "aa:bb:cc:dd:ee:02");
    assert_eq!(find_device(&c, &d, "Desk Mouse").unwrap().name, "Magic Mouse");
}

#[test]
fn resolve_alias_prefers_first_bound_alias() {
    let c = config_with(vec![("first", Some("aa:bb:cc:dd:ee:01")), ("second", Some("aa:bb:cc:dd:ee:01"))]);
    let d = sample();
    assert_eq!(resolve_alias(&c, &d[0]), "first");
    assert_eq!(resolve_alias(&c, &d[1]), "Magic Mouse");
    assert_eq!(alias_name_for(&c.devices, "aa:bb:cc:dd:ee:01"), Some("first"));
    assert_eq!(alias_name_for(&c.devices, "zz"), None);
}

#[test]
fn bound_alias_names_the_device() {
    let mut c = config_with(vec![]);
    let d = sample();
    c.add_alias("headphones", "aa:bb:cc:dd:ee:01");
    assert_eq!(resolve_alias(&c, &d[0]), "headphones");
}

#[test]
fn list_lines_are_padded_columns() {
    let c = config_with(vec![("Mouse", Some("aa:bb:cc:dd:ee:02"))]);
    let lines = list_lines(&c, &sample());
    assert_eq!(lines.len(), 4);
    assert_eq!(lines[0], format!("{:<30} {:<20} {}", "Name", "Address", "Status"));
    assert_eq!(lines[1], format!("{:-<30} {:-<20} {:-<10}", "", "", ""));
    assert_eq!(lines[2], format!("{:<30} {:<20} {}", "WH-1000XM4", "aa:bb:cc:dd:ee:01", "connected"));
    assert_eq!(lines[3], format!("{:<30} {:<20} {}", "Mouse", "aa:bb:cc:dd:ee:02", "paired"));
}

#[test]
fn status_lines_split_connected_and_available() {
    let c = config_with(vec![]);
    let lines = status_lines(&c, &sample());
    let expected = vec![
        "Host: desk",
        "",
        "Connected (1):",
        "  - WH-1000XM4 (aa:bb:cc:dd:ee:01)",
        "",
        "Available (1):",
        "  - Magic Mouse (aa:bb:cc:dd:ee:02)",
    ];
    assert_eq!(lines, expected);
}

#[test]
fn status_lines_say_none_for_empty_sections() {
    let c = config_with(vec![]);
    let lines = status_lines(&c, &[]);
    assert_eq!(
        lines,
        vec!["Host: desk", "", "Connected (0):", "  (none)", "", "Available (0):", "  (none)"]
    );
}

#[test]
fn connected_and_available_partition_the_devices() {
    let mut d = sample();
    d.push(device("Keyboard", "aa:bb:cc:dd:ee:03", true));
    let on = devices_with_state(&d, true);
    let off = devices_with_state(&d, false);
    assert_eq!(on.len() + off.len(), d.len());
    assert!(on.iter().all(|x| x.connected));
    assert!(off.iter().all(|x| !x.connected));
    assert_eq!(on[1].name, "Keyboard");
}
