//! The platform backends: what the platform tools' output means, and the commands
//! that switch a device. Running the tools is left to the caller, which hands the
//! outcome back here.

use vstd::prelude::*;
use crate::error::BtError;
use crate::json::{json_row, json_table, parsed_json_row, parsed_json_table, Cell, CellView};
use crate::protocol::{DeviceInfo, DeviceView};
use crate::text::{
    chars_other_than, concat2, opt_text, same_text, concat3, contains_text, decode_lossy, lowercase, owned, remove_char,
    to_lowercase, to_uppercase, trim, trimmed, uppercase, utf8_lossy,
};

verus! {

/// Lists, disconnects and connects Bluetooth devices on this machine.
pub trait BluetoothBackend: Send + Sync {
    fn list_devices(&self) -> Result<Vec<DeviceInfo>, BtError>;

    fn disconnect(&self, address: &str) -> Result<(), BtError>;

    fn connect(&self, address: &str) -> Result<(), BtError>;
}

/// What a finished tool run left: whether it succeeded and what it printed.
pub struct ProcessOutput {
    pub success: bool,
    pub stdout: Vec<u8>,
    pub stderr: Vec<u8>,
}

/// The operating system the program runs on.
pub enum Platform {
    MacOs,
    Windows,
    Other,
}

/// The backend for macOS, which drives the `blueutil` tool.
pub struct MacOsBackend;

/// The backend for Windows, which drives PowerShell's PnP device commands.
pub struct WindowsBackend;

/// The backend chosen for the platform.
pub enum PlatformBackend {
    MacOs(MacOsBackend),
    Windows(WindowsBackend),
}

/// The text of a JSON string member, or the empty string.
pub open spec fn cell_text(c: CellView) -> Seq<char> {
    match c.0 {
        Some(s) => s,
        None => ""@,
    }
}

/// The text of a string member, or the empty string.
fn cell_string(c: &Cell) -> (r: String)
    ensures
        r@ == cell_text(c.deep_view()),
{
    match &c.0 {
        Some(s) => s.clone(),
        None => owned(""),
    }
}

/// What a tool run yields: its output, or the error for a tool that could not be
/// started (`started` is the reason) or that failed (its error output is quoted).
pub open spec fn tool_result(tool: Seq<char>, run: Result<ProcessOutput, String>) -> Result<Seq<char>, Seq<char>> {
    match run {
        Err(e) => Err("failed to run "@ + tool + ": "@ + e@),
        Ok(o) => if o.success {
            Ok(utf8_lossy(o.stdout@))
        } else {
            Err(tool + " error: "@ + utf8_lossy(o.stderr@))
        },
    }
}

/// A tool result as the backend reports it: failures are backend errors.
pub open spec fn as_backend_result(r: Result<String, BtError>, expected: Result<Seq<char>, Seq<char>>) -> bool {
    match expected {
        Ok(out) => r matches Ok(s) && s@ == out,
        Err(m) => r matches Err(BtError::Backend(b)) && b@ == m,
    }
}

fn tool_output(tool: &str, run: Result<ProcessOutput, String>) -> (r: Result<String, BtError>)
    ensures
        as_backend_result(r, tool_result(tool@, run)),
{
    match run {
        Err(e) => {
            let mut m = concat3("failed to run ", tool, ": ");
            m.append(e.as_str());
            Err(BtError::Backend(m))
        }
        Ok(o) => {
            if o.success {
                Ok(decode_lossy(o.stdout.as_slice()))
            } else {
                let err = decode_lossy(o.stderr.as_slice());
                Err(BtError::Backend(concat3(tool, " error: ", err.as_str())))
            }
        }
    }
}

/// The keys a `blueutil` device object is read by.
pub open spec fn mac_keys() -> Seq<Seq<char>> {
    seq!["address"@, "name"@]
}

/// The addresses, lower-cased, of the listed objects that have a string `address`.
pub open spec fn mac_connected_addresses(rows: Seq<Seq<CellView>>) -> Seq<Seq<char>> {
    rows.filter_map(address_of_row())
}

/// The lower-cased address of a row, where it has one.
pub open spec fn address_of_row() -> spec_fn(Seq<CellView>) -> Option<Seq<char>> {
    |row: Seq<CellView>| match row[0].0 {
        Some(a) => Some(lowercase(a)),
        None => None,
    }
}

/// The connected addresses that `blueutil --connected` reported: none where it
/// failed or printed something other than a JSON array.
pub open spec fn mac_connected_set(connected: Option<Seq<char>>) -> Seq<Seq<char>> {
    match connected {
        Some(text) => match parsed_json_table(text, seq!["address"@]) {
            Ok(rows) => mac_connected_addresses(rows),
            Err(_) => seq![],
        },
        None => seq![],
    }
}

/// One paired device as `blueutil` lists it: the address lower-cased; the name,
/// unless it is missing, empty or "-", in which case the address stands for it;
/// connected when its address is among the connected ones; always paired.
pub open spec fn mac_device(row: Seq<CellView>, connected: Seq<Seq<char>>) -> DeviceView {
    let addr = lowercase(cell_text(row[0]));
    let name = match row[1].0 {
        Some(n) => if n.len() > 0 && n != "-"@ { n } else { addr },
        None => addr,
    };
    DeviceView { name, bt_address: addr, connected: connected.contains(addr), paired: true }
}

/// The devices that `blueutil --paired` printed, or the text of the parse error.
pub open spec fn mac_devices(paired: Seq<char>, connected: Option<Seq<char>>) -> Result<Seq<DeviceView>, Seq<char>> {
    match parsed_json_table(paired, mac_keys()) {
        Ok(rows) => Ok(rows.map_values(|row: Seq<CellView>| mac_device(row, mac_connected_set(connected)))),
        Err(m) => Err(m),
    }
}

/// The views of some device reports.
pub open spec fn views(v: Seq<DeviceInfo>) -> Seq<DeviceView> {
    v.map_values(|d: DeviceInfo| d@)
}

/// The message with which `blueutil` is reported missing.
pub open spec fn blueutil_missing() -> Seq<char> {
    "blueutil not found. Install with: brew install blueutil"@
}

impl MacOsBackend {
    /// The macOS backend, which needs the `blueutil` tool to be installed.
    pub fn new(blueutil_installed: bool) -> (r: Result<MacOsBackend, BtError>)
        ensures
            blueutil_installed ==> r is Ok,
            !blueutil_installed ==> (r matches Err(BtError::Backend(m)) && m@ == blueutil_missing()),
    {
        if !blueutil_installed {
            return Err(BtError::Backend(owned("blueutil not found. Install with: brew install blueutil")));
        }
        Ok(MacOsBackend)
    }

    /// The `blueutil` arguments that list the paired devices as JSON.
    pub fn paired_args(&self) -> (r: Vec<String>)
        ensures
            r.deep_view() == seq!["--paired"@, "--format"@, "json"@],
    {
        let r = vec![owned("--paired"), owned("--format"), owned("json")];
        assert(r.deep_view() =~= seq!["--paired"@, "--format"@, "json"@]);
        r
    }

    /// The `blueutil` arguments that list the connected devices as JSON.
    pub fn connected_args(&self) -> (r: Vec<String>)
        ensures
            r.deep_view() == seq!["--connected"@, "--format"@, "json"@],
    {
        let r = vec![owned("--connected"), owned("--format"), owned("json")];
        assert(r.deep_view() =~= seq!["--connected"@, "--format"@, "json"@]);
        r
    }

    /// The `blueutil` arguments that disconnect the device with the given address.
    pub fn disconnect_args(&self, address: &str) -> (r: Vec<String>)
        ensures
            r.deep_view() == seq!["--disconnect"@, address@],
    {
        let r = vec![owned("--disconnect"), owned(address)];
        assert(r.deep_view() =~= seq!["--disconnect"@, address@]);
        r
    }

    /// The `blueutil` arguments that connect the device with the given address.
    pub fn connect_args(&self, address: &str) -> (r: Vec<String>)
        ensures
            r.deep_view() == seq!["--connect"@, address@],
    {
        let r = vec![owned("--connect"), owned(address)];
        assert(r.deep_view() =~= seq!["--connect"@, address@]);
        r
    }

    /// What a `blueutil` run yields: what it printed, or why it failed.
    pub fn blueutil_output(&self, run: Result<ProcessOutput, String>) -> (r: Result<String, BtError>)
        ensures
            as_backend_result(r, tool_result("blueutil"@, run)),
    {
        tool_output("blueutil", run)
    }

    /// The paired devices from what `blueutil --paired --format json` printed and,
    /// where that run succeeded, what `blueutil --connected --format json` printed.
    pub fn parse_devices(&self, paired: &str, connected: Option<String>) -> (r: Result<Vec<DeviceInfo>, BtError>)
        ensures
            match mac_devices(paired@, opt_text(connected)) {
                Ok(v) => r matches Ok(d) && views(d@) == v,
                Err(m) => r matches Err(BtError::Backend(b)) && b@ == "parse blueutil output: "@ + m,
            },
    {
        let ghost connected_view: Option<Seq<char>> = opt_text(connected);
        let keys = vec![owned("address"), owned("name")];
        assert(keys.deep_view() =~= mac_keys());
        let rows = match json_table(paired, &keys) {
            Ok(t) => t,
            Err(e) => {
                return Err(BtError::Backend(concat2("parse blueutil output: ", e.as_str())));
            }
        };
        let addresses = connected_addresses(connected);
        let ghost set = mac_connected_set(connected_view);
        let ghost f = |row: Seq<CellView>| mac_device(row, set);
        let mut out: Vec<DeviceInfo> = Vec::new();
        let mut i: usize = 0;
        while i < rows.len()
            invariant
                i <= rows@.len(),
                forall|j: int| 0 <= j < rows@.len() ==> (#[trigger] rows@[j])@.len() == 2,
                addresses.deep_view() == set,
                f == (|row: Seq<CellView>| mac_device(row, set)),
                views(out@) == rows.deep_view().take(i as int).map_values(f),
            decreases rows.len() - i,
        {
            let row = &rows[i];
            assert(row.deep_view()[0] == row@[0].deep_view());
            assert(row.deep_view()[1] == row@[1].deep_view());
            let addr = to_lowercase(cell_string(&row[0]).as_str());
            let name = match &row[1].0 {
                Some(n) => {
                    if n.unicode_len() > 0 && !same_text(n.as_str(), "-") {
                        n.clone()
                    } else {
                        addr.clone()
                    }
                }
                None => addr.clone(),
            };
            let is_connected = contains_text(&addresses, addr.as_str());
            let ghost before = out@;
            out.push(DeviceInfo { name, bt_address: addr, connected: is_connected, paired: true });
            proof {
                assert(rows.deep_view()[i as int] == row.deep_view());
                assert(rows.deep_view().take(i + 1) =~= rows.deep_view().take(i as int).push(rows.deep_view()[i as int]));
                assert(out@.last()@ == f(rows.deep_view()[i as int]));
                assert(views(out@) =~= views(before).push(out@.last()@));
            }
            i = i + 1;
        }
        assert(rows.deep_view().take(rows@.len() as int) =~= rows.deep_view());
        Ok(out)
    }
}

/// The lower-cased addresses that the `blueutil --connected` output lists.
fn connected_addresses(connected: Option<String>) -> (r: Vec<String>)
    ensures
        r.deep_view() == mac_connected_set(opt_text(connected)),
{
    let mut out: Vec<String> = Vec::new();
    let text = match connected {
        Some(t) => t,
        None => {
            return out;
        }
    };
    let keys = vec![owned("address")];
    assert(keys.deep_view() =~= seq!["address"@]);
    let rows = match json_table(text.as_str(), &keys) {
        Ok(t) => t,
        Err(_) => {
            return out;
        }
    };
    let ghost g = address_of_row();
    let mut i: usize = 0;
    while i < rows.len()
        invariant
            i <= rows@.len(),
            forall|j: int| 0 <= j < rows@.len() ==> (#[trigger] rows@[j])@.len() == 1,
            g == address_of_row(),
            out.deep_view() == rows.deep_view().take(i as int).filter_map(g),
        decreases rows.len() - i,
    {
        let row = &rows[i];
        proof {
            assert(rows.deep_view()[i as int] == row.deep_view());
            assert(row.deep_view()[0] == row@[0].deep_view());
            rows.deep_view().lemma_filter_map_take_succ(g, i as int);
        }
        match &row[0].0 {
            Some(a) => {
                let ghost before = out.deep_view();
                out.push(to_lowercase(a.as_str()));
                assert(out.deep_view() =~= before + seq![out@.last()@]);
            }
            None => {}
        }
        i = i + 1;
    }
    assert(rows.deep_view().take(rows@.len() as int) =~= rows.deep_view());
    out
}


/// The keys a PowerShell device object is read by.
pub open spec fn windows_keys() -> Seq<Seq<char>> {
    seq!["bt_address"@, "name"@, "connected"@, "paired"@]
}

/// The objects that the PowerShell listing printed: the elements of a JSON array,
/// or else the one value it printed.
pub open spec fn windows_rows(raw: Seq<char>) -> Seq<Seq<CellView>> {
    match parsed_json_table(raw, windows_keys()) {
        Ok(rows) => rows,
        Err(_) => seq![parsed_json_row(raw, windows_keys())],
    }
}

/// One listed object as a device: skipped where both its address and its name are
/// missing or empty; the address lower-cased; the address stands for a missing name;
/// not connected and paired unless the object says otherwise.
pub open spec fn windows_device() -> spec_fn(Seq<CellView>) -> Option<DeviceView> {
    |row: Seq<CellView>| {
        let addr = lowercase(cell_text(row[0]));
        let name = cell_text(row[1]);
        if addr.len() == 0 && name.len() == 0 {
            None
        } else {
            Some(DeviceView {
                name: if name.len() == 0 { addr } else { name },
                bt_address: addr,
                connected: match row[2].1 { Some(b) => b, None => false },
                paired: match row[3].1 { Some(b) => b, None => true },
            })
        }
    }
}

/// The devices that the PowerShell listing printed (nothing for blank output).
pub open spec fn windows_devices(raw: Seq<char>) -> Seq<DeviceView> {
    if trimmed(raw).len() == 0 {
        seq![]
    } else {
        windows_rows(raw).filter_map(windows_device())
    }
}

/// What a PowerShell run yields: its output without surrounding white space, or why
/// it failed.
pub open spec fn powershell_result(run: Result<ProcessOutput, String>) -> Result<Seq<char>, Seq<char>> {
    match tool_result("powershell"@, run) {
        Ok(out) => Ok(trimmed(out)),
        Err(m) => Err(m),
    }
}

/// The address as the PnP instance ids spell it: upper case, without colons.
pub open spec fn instance_address(address: Seq<char>) -> Seq<char> {
    chars_other_than(uppercase(address), ':')
}

/// The PowerShell command that switches the device with the PnP `verb`
/// (`Disable` or `Enable`).
pub open spec fn switch_script(verb: Seq<char>, address: Seq<char>) -> Seq<char> {
    "$dev = Get-PnpDevice -Class Bluetooth -ErrorAction SilentlyContinue | Where-Object { $_.InstanceId -like '*"@
        + instance_address(address)
        + "*' }; if ($dev) { "@ + verb
        + "-PnpDevice -InstanceId $dev.InstanceId -Confirm:$false -ErrorAction SilentlyContinue }"@
}

/// The PowerShell command that lists the Bluetooth devices as JSON objects with
/// `name`, `bt_address`, `connected` and `paired`.
pub const LIST_SCRIPT: &'static str = r#"
$devices = @()
$bt = Get-PnpDevice -Class Bluetooth -ErrorAction SilentlyContinue | Where-Object { $_.FriendlyName -ne $null -and $_.FriendlyName -ne "" -and $_.Class -eq "Bluetooth" }
foreach ($d in $bt) {
    $connected = $d.Status -eq "OK"
    $devices += @{
        name = $d.FriendlyName
        bt_address = $d.InstanceId -replace '.*#(..)(..)(..)(..)(..)(..)#.*','$1:$2:$3:$4:$5:$6'
        connected = $connected
        paired = $true
    }
}
$devices | ConvertTo-Json
"#;

/// How long to wait after disabling a device, in milliseconds.
pub const DISCONNECT_SETTLE_MILLIS: u64 = 1500;

/// How long to wait after enabling a device, in milliseconds.
pub const CONNECT_SETTLE_MILLIS: u64 = 2000;

impl WindowsBackend {
    /// The Windows backend; it needs nothing beyond PowerShell.
    pub fn new() -> (r: Result<WindowsBackend, BtError>)
        ensures
            r is Ok,
    {
        Ok(WindowsBackend)
    }

    /// The PowerShell command that lists the Bluetooth devices as JSON.
    pub fn list_script(&self) -> (r: &'static str)
        ensures
            r@ == LIST_SCRIPT@,
    {
        LIST_SCRIPT
    }

    /// The PowerShell arguments that run `script` without loading a profile.
    pub fn powershell_args(&self, script: &str) -> (r: Vec<String>)
        ensures
            r.deep_view() == seq!["-NoProfile"@, "-Command"@, script@],
    {
        let r = vec![owned("-NoProfile"), owned("-Command"), owned(script)];
        assert(r.deep_view() =~= seq!["-NoProfile"@, "-Command"@, script@]);
        r
    }

    /// What a PowerShell run yields: its output without surrounding white space, or
    /// why it failed.
    pub fn powershell_output(&self, run: Result<ProcessOutput, String>) -> (r: Result<String, BtError>)
        ensures
            as_backend_result(r, powershell_result(run)),
    {
        match tool_output("powershell", run) {
            Ok(out) => Ok(trim(out.as_str())),
            Err(e) => Err(e),
        }
    }

    /// The devices from what the listing command printed.
    pub fn parse_devices(&self, raw: &str) -> (r: Vec<DeviceInfo>)
        ensures
            views(r@) == windows_devices(raw@),
    {
        let t = trim(raw);
        if t.unicode_len() == 0 {
            let none: Vec<DeviceInfo> = Vec::new();
            assert(views(none@) =~= seq![]);
            return none;
        }
        let keys = vec![owned("bt_address"), owned("name"), owned("connected"), owned("paired")];
        assert(keys.deep_view() =~= windows_keys());
        let rows = match json_table(raw, &keys) {
            Ok(t) => t,
            Err(_) => {
                let single = json_row(raw, &keys);
                let v = vec![single];
                assert(v.deep_view() =~= seq![parsed_json_row(raw@, windows_keys())]);
                v
            }
        };
        assert(rows.deep_view() == windows_rows(raw@));
        let ghost g = windows_device();
        let mut out: Vec<DeviceInfo> = Vec::new();
        let mut i: usize = 0;
        while i < rows.len()
            invariant
                i <= rows@.len(),
                forall|j: int| 0 <= j < rows@.len() ==> (#[trigger] rows@[j])@.len() == 4,
                g == windows_device(),
                views(out@) == rows.deep_view().take(i as int).filter_map(g),
            decreases rows.len() - i,
        {
            let row = &rows[i];
            proof {
                assert(rows.deep_view()[i as int] == row.deep_view());
                assert(row.deep_view()[0] == row@[0].deep_view());
                assert(row.deep_view()[1] == row@[1].deep_view());
                assert(row.deep_view()[2] == row@[2].deep_view());
                assert(row.deep_view()[3] == row@[3].deep_view());
                rows.deep_view().lemma_filter_map_take_succ(g, i as int);
            }
            let addr = to_lowercase(cell_string(&row[0]).as_str());
            let name = cell_string(&row[1]);
            if addr.unicode_len() == 0 && name.unicode_len() == 0 {
                assert(g(rows.deep_view()[i as int]) is None);
            } else {
                let connected = match row[2].1 { Some(b) => b, None => false };
                let paired = match row[3].1 { Some(b) => b, None => true };
                let shown = if name.unicode_len() == 0 { addr.clone() } else { name };
                let ghost before = out@;
                out.push(DeviceInfo { name: shown, bt_address: addr, connected, paired });
                proof {
                    assert(g(rows.deep_view()[i as int]) == Some(out@.last()@));
                    assert(views(out@) =~= views(before) + seq![out@.last()@]);
                }
            }
            i = i + 1;
        }
        assert(rows.deep_view().take(rows@.len() as int) =~= rows.deep_view());
        out
    }

    /// The PowerShell command that disables the device with the given address.
    pub fn disconnect_script(&self, address: &str) -> (r: String)
        ensures
            r@ == switch_script("Disable"@, address@),
    {
        switch_command("Disable", address)
    }

    /// The PowerShell command that enables the device with the given address.
    pub fn connect_script(&self, address: &str) -> (r: String)
        ensures
            r@ == switch_script("Enable"@, address@),
    {
        switch_command("Enable", address)
    }
}

fn switch_command(verb: &str, address: &str) -> (r: String)
    ensures
        r@ == switch_script(verb@, address@),
{
    let upper = to_uppercase(address);
    let id = remove_char(upper.as_str(), ':');
    let mut s = concat2(
        "$dev = Get-PnpDevice -Class Bluetooth -ErrorAction SilentlyContinue | Where-Object { $_.InstanceId -like '*",
        id.as_str(),
    );
    s.append("*' }; if ($dev) { ");
    s.append(verb);
    s.append("-PnpDevice -InstanceId $dev.InstanceId -Confirm:$false -ErrorAction SilentlyContinue }");
    s
}

/// The backend for `platform`: on macOS it needs `blueutil` (whether it is installed
/// is `blueutil_installed`), on Windows nothing more, and other platforms have none.
pub fn create_backend(platform: Platform, blueutil_installed: bool) -> (r: Result<PlatformBackend, BtError>)
    ensures
        match platform {
            Platform::MacOs => if blueutil_installed {
                r matches Ok(PlatformBackend::MacOs(_))
            } else {
                r matches Err(BtError::Backend(m)) && m@ == blueutil_missing()
            },
            Platform::Windows => r matches Ok(PlatformBackend::Windows(_)),
            Platform::Other => r matches Err(BtError::UnsupportedPlatform),
        },
{
    match platform {
        Platform::MacOs => match MacOsBackend::new(blueutil_installed) {
            Ok(b) => Ok(PlatformBackend::MacOs(b)),
            Err(e) => Err(e),
        },
        Platform::Windows => match WindowsBackend::new() {
            Ok(b) => Ok(PlatformBackend::Windows(b)),
            Err(e) => Err(e),
        },
        Platform::Other => Err(BtError::UnsupportedPlatform),
    }
}

/// The address put into a PnP command holds no colon.
pub proof fn law_instance_address_has_no_colon(address: Seq<char>)
    ensures
        !instance_address(address).contains(':'),
        instance_address(address).len() <= uppercase(address).len(),
{
    let s = instance_address(address);
    let p = crate::text::differs_from(':');
    if s.contains(':') {
        let i = choose|i: int| 0 <= i < s.len() && s[i] == ':';
        uppercase(address).lemma_filter_pred(p, i);
    }
    uppercase(address).lemma_filter_len(p);
}

/// Each device listed from the PowerShell output comes from one listed object, and
/// reads each field from the member of that name: the address from `bt_address`,
/// lower-cased; `connected` from the `connected` member (false where it is missing or
/// not a boolean), whatever the `paired` member says; `paired` from the `paired`
/// member (true where it is missing or not a boolean).
pub proof fn law_windows_fields_follow_members(raw: Seq<char>, i: int)
    requires
        0 <= i < windows_devices(raw).len(),
    ensures
        exists|row: Seq<CellView>| #[trigger] windows_rows(raw).contains(row)
            && forall|k: int| 0 <= k < windows_keys().len() ==> {
                let d = windows_devices(raw)[i];
                &&& windows_keys()[k] == "bt_address"@ ==> d.bt_address == lowercase(cell_text(#[trigger] row[k]))
                &&& windows_keys()[k] == "connected"@ ==> d.connected == (row[k].1 == Some(true))
                &&& windows_keys()[k] == "paired"@ ==> d.paired == (row[k].1 != Some(false))
            },
{
    reveal_strlit("bt_address");
    reveal_strlit("name");
    reveal_strlit("connected");
    reveal_strlit("paired");
    let d = windows_devices(raw)[i];
    let f = windows_device();
    let rows = windows_rows(raw);
    assert(trimmed(raw).len() != 0);
    assert(windows_devices(raw) == rows.filter_map(f));
    assert(rows.filter_map(f).contains(d));
    rows.lemma_filter_map_contains(f, d);
    let row = choose|t: Seq<CellView>| #[trigger] rows.contains(t) && f(t) == Some(d);
    assert(f(row) == Some(d));
    assert(d.bt_address == lowercase(cell_text(row[0])));
    assert(d.connected == (row[2].1 == Some(true)));
    assert(d.paired == (row[3].1 != Some(false)));
    assert forall|k: int| 0 <= k < windows_keys().len() implies {
        &&& windows_keys()[k] == "bt_address"@ ==> d.bt_address == lowercase(cell_text(#[trigger] row[k]))
        &&& windows_keys()[k] == "connected"@ ==> d.connected == (row[k].1 == Some(true))
        &&& windows_keys()[k] == "paired"@ ==> d.paired == (row[k].1 != Some(false))
    } by {
        assert(windows_keys()[0] == "bt_address"@);
        assert(windows_keys()[1] == "name"@);
        assert(windows_keys()[2] == "connected"@);
        assert(windows_keys()[3] == "paired"@);
        assert("bt_address"@.len() == 10 && "name"@.len() == 4 && "connected"@.len() == 9 && "paired"@.len() == 6);
        assert(k == 0 || k == 1 || k == 2 || k == 3);
    }
}

/// An element that `f` maps to something is kept by `filter_map`.
proof fn lemma_filter_map_keeps<A, B>(s: Seq<A>, f: spec_fn(A) -> Option<B>, j: int)
    requires
        0 <= j < s.len(),
        f(s[j]) is Some,
    ensures
        s.filter_map(f).contains(f(s[j])->0),
    decreases s.len(),
{
    let rest = s.drop_last();
    let x = f(s[j])->0;
    if j == s.len() - 1 {
        assert(s.filter_map(f) == rest.filter_map(f) + seq![x]);
        assert(s.filter_map(f)[s.filter_map(f).len() - 1] == x);
    } else {
        lemma_filter_map_keeps(rest, f, j);
        assert(rest[j] == s[j]);
        let k = choose|k: int| 0 <= k < rest.filter_map(f).len() && rest.filter_map(f)[k] == x;
        match f(s.last()) {
            Some(y) => {
                assert(s.filter_map(f) == rest.filter_map(f) + seq![y]);
                assert(s.filter_map(f)[k] == x);
            },
            None => {
                assert(s.filter_map(f) == rest.filter_map(f));
            },
        }
    }
}

/// Whether an object of the `blueutil --connected` listing gives, lower-cased, the
/// address `addr` in its `address` member.
pub open spec fn names_address(row: Seq<CellView>, addr: Seq<char>) -> bool {
    match row[0].0 {
        Some(a) => lowercase(a) == addr,
        None => false,
    }
}

/// Whether the `blueutil --connected` listing, where there is one and it is a JSON
/// array, holds an object with the address `addr`.
pub open spec fn listed_connected(connected: Option<Seq<char>>, addr: Seq<char>) -> bool {
    match connected {
        Some(text) => match parsed_json_table(text, seq!["address"@]) {
            Ok(listed) => exists|j: int| 0 <= j < listed.len() && names_address(#[trigger] listed[j], addr),
            Err(_) => false,
        },
        None => false,
    }
}

/// What `blueutil` lists reads as one device per paired object, in order: the
/// address from the object's `address` member, lower-cased; always paired; connected
/// exactly when some object of the connected listing has an `address` member that,
/// lower-cased, is that address (never where the connected listing is missing or is
/// not a JSON array).
pub proof fn law_mac_fields_follow_listings(paired: Seq<char>, connected: Option<Seq<char>>)
    ensures
        match parsed_json_table(paired, mac_keys()) {
            Err(m) => mac_devices(paired, connected) == Err::<Seq<DeviceView>, Seq<char>>(m),
            Ok(rows) => match mac_devices(paired, connected) {
                Ok(devs) => devs.len() == rows.len() && forall|i: int| 0 <= i < devs.len() ==> {
                    &&& forall|k: int| 0 <= k < mac_keys().len() && mac_keys()[k] == "address"@
                        ==> devs[i].bt_address == lowercase(cell_text(#[trigger] rows[i][k]))
                    &&& devs[i].paired
                    &&& devs[i].connected == listed_connected(connected, devs[i].bt_address)
                },
                Err(_) => false,
            },
        },
{
    reveal_strlit("address");
    reveal_strlit("name");
    if let Ok(rows) = parsed_json_table(paired, mac_keys()) {
        let set = mac_connected_set(connected);
        let devs = rows.map_values(|row: Seq<CellView>| mac_device(row, set));
        assert(mac_devices(paired, connected) == Ok::<Seq<DeviceView>, Seq<char>>(devs));
        assert forall|i: int| 0 <= i < devs.len() implies {
            &&& forall|k: int| 0 <= k < mac_keys().len() && mac_keys()[k] == "address"@
                ==> devs[i].bt_address == lowercase(cell_text(#[trigger] rows[i][k]))
            &&& devs[i].paired
            &&& devs[i].connected == listed_connected(connected, devs[i].bt_address)
        } by {
            let d = devs[i];
            assert(d == mac_device(rows[i], set));
            assert(mac_keys()[0] == "address"@ && mac_keys()[1] == "name"@);
            assert("address"@.len() == 7 && "name"@.len() == 4);
            if let Some(text) = connected {
                if let Ok(listed) = parsed_json_table(text, seq!["address"@]) {
                    let f = address_of_row();
                    assert(set == listed.filter_map(f));
                    if set.contains(d.bt_address) {
                        listed.lemma_filter_map_contains(f, d.bt_address);
                        let t = choose|t: Seq<CellView>| #[trigger] listed.contains(t) && f(t) == Some(d.bt_address);
                        let j = choose|j: int| 0 <= j < listed.len() && listed[j] == t;
                        assert(names_address(listed[j], d.bt_address));
                    }
                    if listed_connected(connected, d.bt_address) {
                        let j = choose|j: int| 0 <= j < listed.len() && names_address(#[trigger] listed[j], d.bt_address);
                        lemma_filter_map_keeps(listed, f, j);
                    }
                }
            }
        }
    }
}

} // verus!
