use bluetooth_switch::config::{Config, DeviceAlias, DEFAULT_AGENT_PORT};
use bluetooth_switch::text::{
    decimal_string, decode_lossy, pad_right, remove_char, repeat_char, to_lowercase, to_uppercase, trim,
};

fn alias(name: &str, address: Option<&str>) -> DeviceAlias {
    DeviceAlias { name: name.to_string(), bt_address: address.map(|a| a.to_string()) }
}

fn names(config: &Config) -> Vec<(String, Option<String>)> {
    config.devices.iter().map(|a| (a.name.clone(), a.bt_address.clone())).collect()
}

#[test]
fn decimal_renders_like_display() {
    assert_eq!(decimal_string(0), "0");
    assert_eq!(decimal_string(7), "7");
    assert_eq!(decimal_string(9400), "9400");
    assert_eq!(decimal_string(u64::MAX), u64::MAX.to_string());
}

#[test]
fn padding_matches_left_aligned_format() {
    assert_eq!(pad_right("Name", 30), format!("{:<30}", "Name"));
    assert_eq!(pad_right("abcdef", 3), "abcdef");
    assert_eq!(pad_right("é", 3), format!("{:<3}", "é"));
    assert_eq!(repeat_char('-', 4), "----");
}

#[test]
fn case_and_trim_helpers_follow_std() {
    assert_eq!(to_lowercase("AA:BB:Cc"), "aa:bb:cc");
    assert_eq!(to_uppercase("aa:bb"), "AA:BB");
    assert_eq!(trim("  x y \n"), "x y");
    assert_eq!(remove_char("AA:BB:CC", ':'), "AABBCC");
    assert_eq!(decode_lossy(b"ok"), "ok");
    assert_eq!(decode_lossy(&[0x61, 0xff]), "a\u{fffd}");
}

#[test]
fn fresh_config_uses_hostname_or_unknown() {
    let c = Config::with_hostname(Some("desk".to_string()));
    assert_eq!(c.identity.hostname, "desk");
    assert_eq!(c.agent_port, DEFAULT_AGENT_PORT);
    assert_eq!(c.agent_port, 9400);
    assert!(c.devices.is_empty() && c.peers.is_empty());
    let c = Config::with_hostname(None);
    assert_eq!(c.identity.hostname, "unknown");
}

#[test]
fn add_alias_replaces_same_name_and_same_address() {
    let mut c = Config::with_hostname(None);
    c.devices = vec![
        alias("phone", Some("11:11")),
        alias("buds", Some("22:22")),
        alias("mouse", None),
        alias("old-buds", Some("22:22")),
    ];
    c.add_alias("phone", "22:22");
    assert_eq!(
        names(&c),
        vec![("mouse".to_string(), None), ("phone".to_string(), Some("22:22".to_string()))]
    );
}

#[test]
fn add_alias_twice_is_the_same_as_once() {
    let mut c = Config::with_hostname(None);
    c.devices = vec![alias("a", Some("1")), alias("b", Some("2"))];
    c.add_alias("c", "3");
    let once = names(&c);
    c.add_alias("c", "3");
    assert_eq!(names(&c), once);
}

#[test]
fn remove_alias_by_name_or_address_counts_removed() {
    let mut c = Config::with_hostname(None);
    c.devices = vec![
        alias("phone", Some("11:11")),
        alias("buds", Some("phone")),
        alias("mouse", None),
    ];
    assert_eq!(c.remove_alias("phone"), 2);
    assert_eq!(names(&c), vec![("mouse".to_string(), None)]);
    assert_eq!(c.remove_alias("nothing"), 0);
    assert_eq!(c.devices.len(), 1);
}

#[test]
fn remove_alias_named_keeps_address_matches() {
    let mut c = Config::with_hostname(None);
    c.devices = vec![alias("x", Some("x")), alias("y", Some("x")), alias("x", None)];
    c.remove_alias_named("x");
    assert_eq!(names(&c), vec![("y".to_string(), Some("x".to_string()))]);
}

#[test]
fn delete_after_add_restores_the_rest() {
    let mut c = Config::with_hostname(None);
    c.devices = vec![alias("a", Some("1")), alias("b", Some("2"))];
    c.add_alias("n", "2");
    c.remove_alias_named("n");
    assert_eq!(names(&c), vec![("a".to_string(), Some("1".to_string()))]);
}
