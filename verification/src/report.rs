//! What `list` and `status` print: one entry per line.

use vstd::prelude::*;
use crate::config::{alias_has_address, Config, DeviceAlias};
use crate::lookup::{first_match, lemma_first_match, resolve_alias, shown_name};
use crate::protocol::DeviceInfo;
use crate::text::{concat2, decimal, owned, pad_right, padded, push_decimal, repeat_char};

verus! {

/// The text of each line.
pub open spec fn texts(lines: Seq<String>) -> Seq<Seq<char>> {
    lines.map_values(|l: String| l@)
}

/// `n` copies of `c`.
pub open spec fn run_of(c: char, n: nat) -> Seq<char> {
    Seq::new(n, |i: int| c)
}

/// The heading of the device list.
pub open spec fn list_header() -> Seq<char> {
    padded("Name"@, 30) + " "@ + padded("Address"@, 20) + " "@ + "Status"@
}

/// The rule under the heading.
pub open spec fn list_rule() -> Seq<char> {
    run_of('-', 30) + " "@ + run_of('-', 20) + " "@ + run_of('-', 10)
}

/// The device list entry of one device: shown name, address and state in columns.
pub open spec fn list_row(aliases: Seq<DeviceAlias>, d: DeviceInfo) -> Seq<char> {
    padded(shown_name(aliases, d), 30) + " "@ + padded(d.bt_address@, 20) + " "@
        + (if d.connected { "connected"@ } else { "paired"@ })
}

/// The device list: heading, rule, then one entry per device in the backend's order.
pub open spec fn list_report(aliases: Seq<DeviceAlias>, devices: Seq<DeviceInfo>) -> Seq<Seq<char>> {
    seq![list_header(), list_rule()] + devices.map_values(|d: DeviceInfo| list_row(aliases, d))
}

/// The devices that are (`connected`) or are not connected, in their order.
pub open spec fn with_state(devices: Seq<DeviceInfo>, connected: bool) -> Seq<DeviceInfo> {
    devices.filter(|d: DeviceInfo| d.connected == connected)
}

/// The status entry of one device.
pub open spec fn status_entry(aliases: Seq<DeviceAlias>, d: DeviceInfo) -> Seq<char> {
    "  - "@ + shown_name(aliases, d) + " ("@ + d.bt_address@ + ")"@
}

/// One section of the status: its title with the count, then its devices or "(none)".
pub open spec fn status_section(title: Seq<char>, aliases: Seq<DeviceAlias>, group: Seq<DeviceInfo>) -> Seq<Seq<char>> {
    seq![title + " ("@ + decimal(group.len()) + "):"@]
        + if group.len() == 0 {
            seq!["  (none)"@]
        } else {
            group.map_values(|d: DeviceInfo| status_entry(aliases, d))
        }
}

/// The status: this host, then the connected devices, then the available ones.
pub open spec fn status_report(hostname: Seq<char>, aliases: Seq<DeviceAlias>, devices: Seq<DeviceInfo>) -> Seq<Seq<char>> {
    seq!["Host: "@ + hostname, ""@]
        + status_section("Connected"@, aliases, with_state(devices, true))
        + seq![""@]
        + status_section("Available"@, aliases, with_state(devices, false))
}

/// The device list that `list` prints.
pub fn list_lines(config: &Config, devices: &[DeviceInfo]) -> (r: Vec<String>)
    ensures
        texts(r@) == list_report(config.devices@, devices@),
{
    let mut lines: Vec<String> = Vec::new();
    let mut header = pad_right("Name", 30);
    header.append(" ");
    let address = pad_right("Address", 20);
    header.append(address.as_str());
    header.append(" ");
    header.append("Status");
    lines.push(header);
    let mut rule = repeat_char('-', 30);
    rule.append(" ");
    let dashes = repeat_char('-', 20);
    rule.append(dashes.as_str());
    rule.append(" ");
    let dashes = repeat_char('-', 10);
    rule.append(dashes.as_str());
    lines.push(rule);
    let ghost f = |d: DeviceInfo| list_row(config.devices@, d);
    let mut i: usize = 0;
    while i < devices.len()
        invariant
            i <= devices@.len(),
            f == (|d: DeviceInfo| list_row(config.devices@, d)),
            texts(lines@) == seq![list_header(), list_rule()] + devices@.take(i as int).map_values(f),
        decreases devices.len() - i,
    {
        let d = &devices[i];
        let name = resolve_alias(config, d);
        let mut row = pad_right(name.as_str(), 30);
        row.append(" ");
        let addr = pad_right(d.bt_address.as_str(), 20);
        row.append(addr.as_str());
        row.append(" ");
        if d.connected {
            row.append("connected");
        } else {
            row.append("paired");
        }
        let ghost before = lines@;
        lines.push(row);
        proof {
            assert(devices@.take(i + 1) =~= devices@.take(i as int).push(devices@[i as int]));
            assert(devices@.take(i + 1).map_values(f) =~= devices@.take(i as int).map_values(f).push(f(devices@[i as int])));
            assert(texts(lines@) =~= texts(before).push(lines@.last()@));
        }
        i = i + 1;
    }
    assert(devices@.take(devices@.len() as int) =~= devices@);
    lines
}

/// The devices that are (`connected`) or are not connected, in their order.
pub fn devices_with_state(devices: &[DeviceInfo], connected: bool) -> (r: Vec<DeviceInfo>)
    ensures
        r@ == with_state(devices@, connected),
{
    let ghost p = |d: DeviceInfo| d.connected == connected;
    let mut out: Vec<DeviceInfo> = Vec::new();
    let mut i: usize = 0;
    while i < devices.len()
        invariant
            i <= devices@.len(),
            p == (|d: DeviceInfo| d.connected == connected),
            out@ == devices@.take(i as int).filter(p),
        decreases devices.len() - i,
    {
        proof {
            assert(devices@.take(i + 1) =~= devices@.take(i as int).push(devices@[i as int]));
            devices@.take(i as int).lemma_filter_push(devices@[i as int], p);
        }
        if devices[i].connected == connected {
            out.push(devices[i].duplicate());
        }
        i = i + 1;
    }
    assert(devices@.take(devices@.len() as int) =~= devices@);
    out
}

/// Appends one status section.
fn push_section(lines: &mut Vec<String>, title: &str, config: &Config, group: &Vec<DeviceInfo>)
    ensures
        texts(final(lines)@) == texts(old(lines)@) + status_section(title@, config.devices@, group@),
{
    let mut heading = owned(title);
    heading.append(" (");
    push_decimal(&mut heading, group.len() as u64);
    heading.append("):");
    lines.push(heading);
    let ghost base = texts(old(lines)@).push(title@ + " ("@ + decimal(group@.len()) + "):"@);
    proof {
        assert(texts(lines@) =~= base);
    }
    if group.len() == 0 {
        lines.push(owned("  (none)"));
        proof {
            assert(texts(lines@) =~= base + seq!["  (none)"@]);
            assert(texts(lines@) =~= texts(old(lines)@) + status_section(title@, config.devices@, group@));
        }
    } else {
        let ghost f = |d: DeviceInfo| status_entry(config.devices@, d);
        let mut i: usize = 0;
        while i < group.len()
            invariant
                i <= group@.len(),
                f == (|d: DeviceInfo| status_entry(config.devices@, d)),
                texts(lines@) == base + group@.take(i as int).map_values(f),
            decreases group.len() - i,
        {
            let d = &group[i];
            let name = resolve_alias(config, d);
            let mut entry = concat2("  - ", name.as_str());
            entry.append(" (");
            entry.append(d.bt_address.as_str());
            entry.append(")");
            let ghost before = lines@;
            lines.push(entry);
            proof {
                assert(group@.take(i + 1) =~= group@.take(i as int).push(group@[i as int]));
                assert(group@.take(i + 1).map_values(f) =~= group@.take(i as int).map_values(f).push(f(group@[i as int])));
                assert(texts(lines@) =~= texts(before).push(lines@.last()@));
            }
            i = i + 1;
        }
        proof {
            assert(group@.take(group@.len() as int) =~= group@);
            assert(texts(lines@) =~= texts(old(lines)@) + status_section(title@, config.devices@, group@));
        }
    }
}

/// The status that `status` prints.
pub fn status_lines(config: &Config, devices: &[DeviceInfo]) -> (r: Vec<String>)
    ensures
        texts(r@) == status_report(config.identity.hostname@, config.devices@, devices@),
{
    let mut lines: Vec<String> = Vec::new();
    lines.push(concat2("Host: ", config.identity.hostname.as_str()));
    lines.push(owned(""));
    let connected = devices_with_state(devices, true);
    let available = devices_with_state(devices, false);
    proof {
        devices@.lemma_filter_len(|d: DeviceInfo| d.connected == true);
        devices@.lemma_filter_len(|d: DeviceInfo| d.connected == false);
    }
    let ghost l0 = texts(lines@);
    push_section(&mut lines, "Connected", config, &connected);
    let ghost l1 = texts(lines@);
    lines.push(owned(""));
    let ghost l2 = texts(lines@);
    push_section(&mut lines, "Available", config, &available);
    proof {
        assert(l2 =~= l1.push(""@));
        assert(texts(lines@) =~= status_report(config.identity.hostname@, config.devices@, devices@));
    }
    lines
}

/// Every device is in exactly one of the two status sections: the connected ones and
/// the available ones together are all devices.
pub proof fn law_status_partitions_devices(devices: Seq<DeviceInfo>)
    ensures
        with_state(devices, true).len() + with_state(devices, false).len() == devices.len(),
        forall|i: int| 0 <= i < with_state(devices, true).len() ==> (#[trigger] with_state(devices, true)[i]).connected,
        forall|i: int| 0 <= i < with_state(devices, false).len() ==> !(#[trigger] with_state(devices, false)[i]).connected,
    decreases devices.len(),
{
    let p = |d: DeviceInfo| d.connected == true;
    let q = |d: DeviceInfo| d.connected == false;
    if devices.len() > 0 {
        let w = devices.drop_last();
        law_status_partitions_devices(w);
        assert(devices == w.push(devices.last()));
        w.lemma_filter_push(devices.last(), p);
        w.lemma_filter_push(devices.last(), q);
    } else {
        reveal(Seq::filter);
    }
    assert forall|i: int| 0 <= i < with_state(devices, true).len() implies (#[trigger] with_state(devices, true)[i]).connected by {
        devices.lemma_filter_pred(p, i);
    }
    assert forall|i: int| 0 <= i < with_state(devices, false).len() implies !(#[trigger] with_state(devices, false)[i]).connected by {
        devices.lemma_filter_pred(q, i);
    }
}

/// The device list has a heading, a rule and exactly one entry per device, in the
/// backend's order, each naming the device as it is shown.
pub proof fn law_list_has_row_per_device(aliases: Seq<DeviceAlias>, devices: Seq<DeviceInfo>)
    ensures
        list_report(aliases, devices).len() == devices.len() + 2,
        forall|i: int| 0 <= i < devices.len() ==>
            #[trigger] list_report(aliases, devices)[i + 2] == list_row(aliases, devices[i]),
{
}

/// Where the status lists the `i`-th device of a section: the connected section
/// comes after the host line, a blank line and its title; the available one after
/// the connected section, a blank line and its title.
pub open spec fn status_entry_line(devices: Seq<DeviceInfo>, connected: bool, i: int) -> int {
    let n = with_state(devices, true).len();
    if connected {
        3 + i
    } else {
        3 + (if n == 0 { 1 } else { n as int }) + 2 + i
    }
}

/// Each status entry names its device as every other report does: by the first
/// alias bound to the device's address, else by the device's own name, followed by
/// the address in brackets.
pub proof fn law_status_entries_use_alias_names(
    hostname: Seq<char>,
    aliases: Seq<DeviceAlias>,
    devices: Seq<DeviceInfo>,
    connected: bool,
    i: int,
)
    requires
        0 <= i < with_state(devices, connected).len(),
    ensures
        ({
            let d = with_state(devices, connected)[i];
            let line = status_report(hostname, aliases, devices)[status_entry_line(devices, connected, i)];
            &&& (forall|a: int| 0 <= a < aliases.len() ==> !alias_has_address(#[trigger] aliases[a], d.bt_address@))
                ==> line == "  - "@ + d.name@ + " ("@ + d.bt_address@ + ")"@
            &&& forall|a: int| 0 <= a < aliases.len() && alias_has_address(#[trigger] aliases[a], d.bt_address@)
                && (forall|b: int| 0 <= b < a ==> !alias_has_address(#[trigger] aliases[b], d.bt_address@))
                ==> line == "  - "@ + aliases[a].name@ + " ("@ + d.bt_address@ + ")"@
        }),
{
    let d = with_state(devices, connected)[i];
    let p = |al: DeviceAlias| alias_has_address(al, d.bt_address@);
    lemma_first_match(aliases, p);
    let on = with_state(devices, true);
    let off = with_state(devices, false);
    let f = |x: DeviceInfo| status_entry(aliases, x);
    let head = seq!["Host: "@ + hostname, ""@];
    let s1 = status_section("Connected"@, aliases, on);
    let s2 = status_section("Available"@, aliases, off);
    let r = status_report(hostname, aliases, devices);
    assert(r == head + s1 + seq![""@] + s2);
    if connected {
        assert(s1 == seq!["Connected"@ + " ("@ + decimal(on.len()) + "):"@] + on.map_values(f));
        assert(r[3 + i] == s1[1 + i]);
        assert(s1[1 + i] == f(on[i]));
    } else {
        let n1 = if on.len() == 0 { 1int } else { on.len() as int };
        assert(s1.len() == 1 + n1);
        assert(s2 == seq!["Available"@ + " ("@ + decimal(off.len()) + "):"@] + off.map_values(f));
        assert(r[status_entry_line(devices, connected, i)] == s2[1 + i]);
        assert(s2[1 + i] == f(off[i]));
    }
    assert forall|a: int| 0 <= a < aliases.len() && alias_has_address(#[trigger] aliases[a], d.bt_address@)
        && (forall|b: int| 0 <= b < a ==> !alias_has_address(#[trigger] aliases[b], d.bt_address@))
        implies first_match(aliases, p) == Some(a) by {
        crate::lookup::lemma_first_match_is(aliases, p, a);
    }
}

} // verus!
