use bluetooth_switch::backend::{
    create_backend, MacOsBackend, Platform, PlatformBackend, ProcessOutput, WindowsBackend,
};
use bluetooth_switch::error::BtError;

fn ran(success: bool, stdout: &str, stderr: &str) -> Result<ProcessOutput, String> {
    Ok(ProcessOutput { success, stdout: stdout.as_bytes().to_vec(), stderr: stderr.as_bytes().to_vec() })
}

#[test]
fn create_backend_per_platform() {
    assert!(matches!(create_backend(Platform::MacOs, true), Ok(PlatformBackend::MacOs(_))));
    match create_backend(Platform::MacOs, false) {
        Err(BtError::Backend(m)) => assert_eq!(m, "blueutil not found. Install with: brew install blueutil"),
        _ => panic!("expected a backend error"),
    }
    assert!(matches!(create_backend(Platform::Windows, false), Ok(PlatformBackend::Windows(_))));
    assert!(matches!(create_backend(Platform::Other, true), Err(BtError::UnsupportedPlatform)));
    assert!(WindowsBackend::new().is_ok());
    assert!(MacOsBackend::new(true).is_ok());
}

#[test]
fn blueutil_output_reports_failures() {
    let mac = MacOsBackend::new(true).unwrap();
    assert_eq!(mac.blueutil_output(ran(true, "[]", "")).unwrap(), "[]");
    match mac.blueutil_output(ran(false, "", "bad flag")) {
        Err(BtError::Backend(m)) => assert_eq!(m, "blueutil error: bad flag"),
        _ => panic!(),
    }
    match mac.blueutil_output(Err("No such file or directory".to_string())) {
        Err(BtError::Backend(m)) => assert_eq!(m, "failed to run blueutil: No such file or directory"),
        _ => panic!(),
    }
}

#[test]
fn mac_devices_from_blueutil_json() {
    let mac = MacOsBackend::new(true).unwrap();
    let paired = r#"[{"address":"AA-BB-CC-DD-EE-01","name":"Headphones"},
                     {"address":"aa-bb-cc-dd-ee-02","name":"-"},
                     {"address":"AA-BB-CC-DD-EE-03","name":""},
                     {"name":"No Address"}]"#;
    let connected = Some(r#"[{"address":"aa-bb-cc-dd-ee-02"},{"address":"AA-BB-CC-DD-EE-01"}]"#.to_string());
    let d = mac.parse_devices(paired, connected).unwrap();
    assert_eq!(d.len(), 4);
    assert_eq!(d[0].name, "Headphones");
    assert_eq!(d[0].bt_address, "aa-bb-cc-dd-ee-01");
    assert!(d[0].connected && d[0].paired);
    assert_eq!(d[1].name, "aa-bb-cc-dd-ee-02");
    assert!(d[1].connected);
    assert_eq!(d[2].name, "aa-bb-cc-dd-ee-03");
    assert!(!d[2].connected);
    assert_eq!(d[3].name, "No Address");
    assert_eq!(d[3].bt_address, "");
}

#[test]
fn mac_devices_without_connected_list() {
    let mac = MacOsBackend::new(true).unwrap();
    let d = mac.parse_devices(r#"[{"address":"01","name":"x"}]"#, None).unwrap();
    assert!(!d[0].connected);
    let d = mac.parse_devices(r#"[{"address":"01","name":"x"}]"#, Some("not json".to_string())).unwrap();
    assert!(!d[0].connected);
}

#[test]
fn mac_parse_error_is_a_backend_error() {
    let mac = MacOsBackend::new(true).unwrap();
    match mac.parse_devices("{oops", None) {
        Err(BtError::Backend(m)) => {
            let expected = serde_json::from_str::<Vec<serde_json::Value>>("{oops").unwrap_err().to_string();
            assert_eq!(m, format!("parse blueutil output: {expected}"));
        }
        _ => panic!("expected a parse error"),
    }
}

#[test]
fn windows_devices_from_array() {
    let w = WindowsBackend::new().unwrap();
    let raw = r#"[{"bt_address":"AA:BB:CC:DD:EE:01","name":"Speaker","connected":true,"paired":true},
                  {"bt_address":"","name":"","connected":false},
                  {"bt_address":"AA:BB:CC:DD:EE:02","name":""}]"#;
    let d = w.parse_devices(raw);
    assert_eq!(d.len(), 2);
    assert_eq!(d[0].name, "Speaker");
    assert_eq!(d[0].bt_address, "aa:bb:cc:dd:ee:01");
    assert!(d[0].connected && d[0].paired);
    assert_eq!(d[1].name, "aa:bb:cc:dd:ee:02");
    assert!(!d[1].connected && d[1].paired);
}

#[test]
fn windows_single_object_and_blank_output() {
    let w = WindowsBackend::new().unwrap();
    let d = w.parse_devices(r#"{"bt_address":"AA:01","name":"Pad","connected":false,"paired":false}"#);
    assert_eq!(d.len(), 1);
    assert_eq!(d[0].bt_address, "aa:01");
    assert!(!d[0].paired);
    assert!(w.parse_devices("   ").is_empty());
    assert!(w.parse_devices("garbage").is_empty());
}

#[test]
fn powershell_output_is_trimmed() {
    let w = WindowsBackend::new().unwrap();
    assert_eq!(w.powershell_output(ran(true, "  [1]\r\n", "")).unwrap(), "[1]");
    match w.powershell_output(ran(false, "", "denied")) {
        Err(BtError::Backend(m)) => assert_eq!(m, "powershell error: denied"),
        _ => panic!(),
    }
    match w.powershell_output(Err("missing".to_string())) {
        Err(BtError::Backend(m)) => assert_eq!(m, "failed to run powershell: missing"),
        _ => panic!(),
    }
}

#[test]
fn windows_switch_scripts_name_the_instance() {
    let w = WindowsBackend::new().unwrap();
    assert_eq!(
        w.disconnect_script("aa:bb:cc:dd:ee:ff"),
        "$dev = Get-PnpDevice -Class Bluetooth -ErrorAction SilentlyContinue | Where-Object { $_.InstanceId -like '*AABBCCDDEEFF*' }; if ($dev) { Disable-PnpDevice -InstanceId $dev.InstanceId -Confirm:$false -ErrorAction SilentlyContinue }"
    );
    assert!(w.connect_script("aa:bb").contains("'*AABB*'"));
    assert!(w.connect_script("aa:bb").contains("Enable-PnpDevice"));
    assert!(w.list_script().contains("ConvertTo-Json"));
}

#[test]
fn tool_arguments() {
    let mac = MacOsBackend::new(true).unwrap();
    assert_eq!(mac.paired_args(), vec!["--paired", "--format", "json"]);
    assert_eq!(mac.connected_args(), vec!["--connected", "--format", "json"]);
    assert_eq!(mac.disconnect_args("aa-01"), vec!["--disconnect", "aa-01"]);
    assert_eq!(mac.connect_args("aa-01"), vec!["--connect", "aa-01"]);
    let w = WindowsBackend::new().unwrap();
    assert_eq!(w.powershell_args("Get-X"), vec!["-NoProfile", "-Command", "Get-X"]);
}
