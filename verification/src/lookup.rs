//! Finding a device by what the user typed, and the name a device is shown under.

use vstd::prelude::*;
use crate::config::{alias_added, alias_has_address, alias_kept, law_alias_is_unique, surviving, Config, DeviceAlias};
use crate::protocol::DeviceInfo;
use crate::text::{lowercase, same_text, to_lowercase};

verus! {

/// The index of the first element of `s` that satisfies `p`, if any.
pub open spec fn first_match<A>(s: Seq<A>, p: spec_fn(A) -> bool) -> Option<int>
    decreases s.len(),
{
    if s.len() == 0 {
        None
    } else if p(s[0]) {
        Some(0)
    } else {
        match first_match(s.drop_first(), p) {
            Some(i) => Some(i + 1),
            None => None,
        }
    }
}

/// `first_match` finds the least index whose element satisfies the predicate, and
/// finds nothing exactly when no element does.
pub proof fn lemma_first_match<A>(s: Seq<A>, p: spec_fn(A) -> bool)
    ensures
        match first_match(s, p) {
            Some(i) => 0 <= i < s.len() && p(s[i]) && forall|j: int| 0 <= j < i ==> !p(#[trigger] s[j]),
            None => forall|j: int| 0 <= j < s.len() ==> !p(#[trigger] s[j]),
        },
    decreases s.len(),
{
    if s.len() > 0 {
        lemma_first_match(s.drop_first(), p);
        assert forall|j: int| 1 <= j < s.len() implies #[trigger] s[j] == s.drop_first()[j - 1] by {}
    }
}

/// A sequence position `i` is the first that satisfies `p`.
pub proof fn lemma_first_match_is<A>(s: Seq<A>, p: spec_fn(A) -> bool, i: int)
    requires
        0 <= i < s.len(),
        p(s[i]),
        forall|j: int| 0 <= j < i ==> !p(#[trigger] s[j]),
    ensures
        first_match(s, p) == Some(i),
{
    lemma_first_match(s, p);
    match first_match(s, p) {
        Some(k) => {
            if k < i { assert(!p(s[k])); }
            if k > i { assert(!p(s[i])); }
        }
        None => { assert(!p(s[i])); }
    }
}

/// No position of `s` satisfies `p`.
pub proof fn lemma_first_match_none<A>(s: Seq<A>, p: spec_fn(A) -> bool)
    requires
        forall|j: int| 0 <= j < s.len() ==> !p(#[trigger] s[j]),
    ensures
        first_match(s, p) is None,
{
    lemma_first_match(s, p);
    if let Some(k) = first_match(s, p) {
        assert(!p(s[k]));
    }
}

/// The first alias bound to the address `addr`.
pub open spec fn alias_for_address(aliases: Seq<DeviceAlias>, addr: Seq<char>) -> Option<int> {
    first_match(aliases, |a: DeviceAlias| alias_has_address(a, addr))
}

/// The first device with the address `addr`.
pub open spec fn device_with_address(devices: Seq<DeviceInfo>, addr: Seq<char>) -> Option<int> {
    first_match(devices, |d: DeviceInfo| d.bt_address@ == addr)
}

/// The device that `query` designates: the first alias whose name matches `query`
/// without regard to case leads to the first device with that alias's address;
/// where that gives nothing, the first device whose name matches without regard to
/// case, or whose address equals the lower-cased query.
pub open spec fn designated_device(aliases: Seq<DeviceAlias>, devices: Seq<DeviceInfo>, query: Seq<char>) -> Option<int> {
    let q = lowercase(query);
    let by_alias = match first_match(aliases, |a: DeviceAlias| lowercase(a.name@) == q) {
        Some(i) => match aliases[i].bt_address {
            Some(addr) => device_with_address(devices, addr@),
            None => None,
        },
        None => None,
    };
    match by_alias {
        Some(k) => Some(k),
        None => first_match(devices, |d: DeviceInfo| lowercase(d.name@) == q || d.bt_address@ == q),
    }
}

/// The name a device is shown under: that of the first alias bound to its address,
/// else its own.
pub open spec fn shown_name(aliases: Seq<DeviceAlias>, device: DeviceInfo) -> Seq<char> {
    match alias_for_address(aliases, device.bt_address@) {
        Some(i) => aliases[i].name@,
        None => device.name@,
    }
}

/// The position of the first alias bound to `addr`.
pub fn find_alias_for_address(aliases: &Vec<DeviceAlias>, addr: &str) -> (r: Option<usize>)
    ensures
        r matches Some(i) ==> alias_for_address(aliases@, addr@) == Some(i as int) && i < aliases@.len(),
        r is None ==> alias_for_address(aliases@, addr@) is None,
{
    let ghost p = |a: DeviceAlias| alias_has_address(a, addr@);
    let mut i: usize = 0;
    while i < aliases.len()
        invariant
            i <= aliases.len(),
            p == (|a: DeviceAlias| alias_has_address(a, addr@)),
            forall|j: int| 0 <= j < i ==> !p(#[trigger] aliases@[j]),
        decreases aliases.len() - i,
    {
        if aliases[i].has_address(addr) {
            proof { lemma_first_match_is(aliases@, p, i as int); }
            return Some(i);
        }
        i = i + 1;
    }
    proof { lemma_first_match_none(aliases@, p); }
    None
}

/// The position of the first device with the address `addr`.
pub fn find_device_with_address(devices: &[DeviceInfo], addr: &str) -> (r: Option<usize>)
    ensures
        r matches Some(i) ==> device_with_address(devices@, addr@) == Some(i as int) && i < devices@.len(),
        r is None ==> device_with_address(devices@, addr@) is None,
{
    let ghost p = |d: DeviceInfo| d.bt_address@ == addr@;
    let mut i: usize = 0;
    while i < devices.len()
        invariant
            i <= devices.len(),
            p == (|d: DeviceInfo| d.bt_address@ == addr@),
            forall|j: int| 0 <= j < i ==> !p(#[trigger] devices@[j]),
        decreases devices.len() - i,
    {
        if same_text(devices[i].bt_address.as_str(), addr) {
            proof { lemma_first_match_is(devices@, p, i as int); }
            return Some(i);
        }
        i = i + 1;
    }
    proof { lemma_first_match_none(devices@, p); }
    None
}

/// The position of the first alias whose lower-cased name is `q`.
fn find_alias_named(aliases: &Vec<DeviceAlias>, q: &String) -> (r: Option<usize>)
    ensures
        r matches Some(i) ==> first_match(aliases@, |a: DeviceAlias| lowercase(a.name@) == q@) == Some(i as int) && i < aliases@.len(),
        r is None ==> first_match(aliases@, |a: DeviceAlias| lowercase(a.name@) == q@) is None,
{
    let ghost p = |a: DeviceAlias| lowercase(a.name@) == q@;
    let mut i: usize = 0;
    while i < aliases.len()
        invariant
            i <= aliases.len(),
            p == (|a: DeviceAlias| lowercase(a.name@) == q@),
            forall|j: int| 0 <= j < i ==> !p(#[trigger] aliases@[j]),
        decreases aliases.len() - i,
    {
        let name = to_lowercase(aliases[i].name.as_str());
        if name == *q {
            proof { lemma_first_match_is(aliases@, p, i as int); }
            return Some(i);
        }
        i = i + 1;
    }
    proof { lemma_first_match_none(aliases@, p); }
    None
}

/// The device that `query` designates (see `designated_device`).
pub fn find_device<'a>(config: &Config, devices: &'a [DeviceInfo], query: &str) -> (r: Option<&'a DeviceInfo>)
    ensures
        match designated_device(config.devices@, devices@, query@) {
            Some(k) => 0 <= k < devices@.len() && r == Some(&devices@[k]),
            None => r is None,
        },
{
    let q = to_lowercase(query);
    let ghost qv = lowercase(query@);
    let aliases = &config.devices;
    let alias_pos = find_alias_named(aliases, &q);
    let ghost pa = |a: DeviceAlias| lowercase(a.name@) == qv;
    let ghost by_alias = match first_match(aliases@, pa) {
        Some(i) => match aliases@[i].bt_address {
            Some(addr) => device_with_address(devices@, addr@),
            None => None,
        },
        None => None,
    };
    proof {
        assert(pa =~= (|a: DeviceAlias| lowercase(a.name@) == q@));
    }
    if let Some(ai) = alias_pos {
        if let Some(addr) = &aliases[ai].bt_address {
            if let Some(k) = find_device_with_address(devices, addr.as_str()) {
                assert(by_alias == Some(k as int));
                return Some(&devices[k]);
            }
        }
    }
    assert(by_alias is None);
    let ghost pd = |d: DeviceInfo| lowercase(d.name@) == qv || d.bt_address@ == qv;
    proof {
        assert(designated_device(config.devices@, devices@, query@) == first_match(devices@, pd));
    }
    let mut k: usize = 0;
    while k < devices.len()
        invariant
            k <= devices.len(),
            q@ == qv,
            pd == (|d: DeviceInfo| lowercase(d.name@) == qv || d.bt_address@ == qv),
            designated_device(config.devices@, devices@, query@) == first_match(devices@, pd),
            forall|j: int| 0 <= j < k ==> !pd(#[trigger] devices@[j]),
        decreases devices.len() - k,
    {
        let name = to_lowercase(devices[k].name.as_str());
        if name == q || same_text(devices[k].bt_address.as_str(), q.as_str()) {
            proof { lemma_first_match_is(devices@, pd, k as int); }
            return Some(&devices[k]);
        }
        k = k + 1;
    }
    proof { lemma_first_match_none(devices@, pd); }
    None
}

/// The name of the first alias bound to `addr`, if there is one.
pub fn alias_name_for<'a>(aliases: &'a Vec<DeviceAlias>, addr: &str) -> (r: Option<&'a str>)
    ensures
        match alias_for_address(aliases@, addr@) {
            Some(i) => r matches Some(n) && n@ == aliases@[i].name@,
            None => r is None,
        },
{
    match find_alias_for_address(aliases, addr) {
        Some(i) => Some(aliases[i].name.as_str()),
        None => None,
    }
}

/// The name `device` is shown under (see `shown_name`).
pub fn resolve_alias(config: &Config, device: &DeviceInfo) -> (r: String)
    ensures
        r@ == shown_name(config.devices@, *device),
{
    match find_alias_for_address(&config.devices, device.bt_address.as_str()) {
        Some(i) => config.devices[i].name.clone(),
        None => device.name.clone(),
    }
}


/// Once `name` is bound to an address, every device with that address is shown
/// under `name`.
pub proof fn law_alias_names_device(
    before: Seq<DeviceAlias>,
    after: Seq<DeviceAlias>,
    name: Seq<char>,
    address: Seq<char>,
    device: DeviceInfo,
)
    requires
        alias_added(before, after, name, address),
        device.bt_address@ == address,
    ensures
        shown_name(after, device) == name,
{
    law_alias_is_unique(before, after, name, address);
    lemma_first_match_is(after, |a: DeviceAlias| alias_has_address(a, address), after.len() - 1);
}

/// Once `name` is bound to an address, asking for `name` finds the first device
/// with that address, provided no other remaining alias has a name that matches
/// `name` without regard to case.
pub proof fn law_alias_finds_device(
    before: Seq<DeviceAlias>,
    after: Seq<DeviceAlias>,
    name: Seq<char>,
    address: Seq<char>,
    devices: Seq<DeviceInfo>,
)
    requires
        alias_added(before, after, name, address),
        device_with_address(devices, address) is Some,
        forall|i: int| 0 <= i < before.len() && lowercase((#[trigger] before[i]).name@) == lowercase(name)
            ==> !alias_kept(before[i], name, Some(address)),
    ensures
        designated_device(after, devices, name) == device_with_address(devices, address),
{
    let q = lowercase(name);
    let p = |a: DeviceAlias| lowercase(a.name@) == q;
    law_alias_is_unique(before, after, name, address);
    assert forall|j: int| 0 <= j < after.len() - 1 implies !p(#[trigger] after[j]) by {
        assert(after[j] == after.drop_last()[j]);
        before.lemma_filter_pred(|a: DeviceAlias| alias_kept(a, name, Some(address)), j);
        let s = surviving(before, name, Some(address));
        assert(alias_kept(s[j], name, Some(address)));
        if p(after[j]) {
            // a surviving alias comes from `before`, where no such alias survives
            assert(s.contains(s[j]));
            before.lemma_filter_contains_rev(|a: DeviceAlias| alias_kept(a, name, Some(address)), s[j]);
            let k = choose|k: int| 0 <= k < before.len() && before[k] == s[j];
            assert(lowercase(before[k].name@) == q);
        }
    }
    lemma_first_match_is(after, p, after.len() - 1);
}

/// The device a query finds, when no alias called like the query (case ignored) is
/// bound to the address of a listed device: the first device whose lower-cased name
/// equals the lower-cased query, or whose address equals it; and nothing exactly when
/// no device is like that. A device whose name merely starts with the query is never
/// found.
pub proof fn law_found_device_matches_query(aliases: Seq<DeviceAlias>, devices: Seq<DeviceInfo>, query: Seq<char>)
    requires
        forall|i: int, j: int| 0 <= i < aliases.len() && 0 <= j < devices.len()
            && lowercase((#[trigger] aliases[i]).name@) == lowercase(query)
            ==> !alias_has_address(aliases[i], (#[trigger] devices[j]).bt_address@),
    ensures
        match designated_device(aliases, devices, query) {
            Some(k) => {
                &&& 0 <= k < devices.len()
                &&& lowercase(devices[k].name@) == lowercase(query) || devices[k].bt_address@ == lowercase(query)
                &&& forall|j: int| 0 <= j < k ==> lowercase((#[trigger] devices[j]).name@) != lowercase(query)
                    && devices[j].bt_address@ != lowercase(query)
            },
            None => forall|j: int| 0 <= j < devices.len() ==> lowercase((#[trigger] devices[j]).name@) != lowercase(query)
                && devices[j].bt_address@ != lowercase(query),
        },
{
    let q = lowercase(query);
    let pa = |a: DeviceAlias| lowercase(a.name@) == q;
    let pd = |d: DeviceInfo| lowercase(d.name@) == q || d.bt_address@ == q;
    lemma_first_match(aliases, pa);
    lemma_first_match(devices, pd);
    if let Some(i) = first_match(aliases, pa) {
        if let Some(addr) = aliases[i].bt_address {
            let pe = |d: DeviceInfo| d.bt_address@ == addr@;
            lemma_first_match(devices, pe);
            if let Some(k) = first_match(devices, pe) {
                assert(alias_has_address(aliases[i], devices[k].bt_address@));
            }
        }
    }
    assert(designated_device(aliases, devices, query) == first_match(devices, pd));
}

/// The device a query finds is always explained by the query: an alias called like
/// the query (case ignored) is bound to its address, or its lower-cased name equals
/// the lower-cased query, or its address equals it.
pub proof fn law_found_device_is_named(aliases: Seq<DeviceAlias>, devices: Seq<DeviceInfo>, query: Seq<char>)
    ensures
        designated_device(aliases, devices, query) matches Some(k) ==> {
            &&& 0 <= k < devices.len()
            &&& (exists|i: int| 0 <= i < aliases.len() && lowercase((#[trigger] aliases[i]).name@) == lowercase(query)
                    && alias_has_address(aliases[i], devices[k].bt_address@))
                || lowercase(devices[k].name@) == lowercase(query)
                || devices[k].bt_address@ == lowercase(query)
        },
{
    let q = lowercase(query);
    let pa = |a: DeviceAlias| lowercase(a.name@) == q;
    let pd = |d: DeviceInfo| lowercase(d.name@) == q || d.bt_address@ == q;
    lemma_first_match(aliases, pa);
    lemma_first_match(devices, pd);
    if let Some(i) = first_match(aliases, pa) {
        if let Some(addr) = aliases[i].bt_address {
            let pe = |d: DeviceInfo| d.bt_address@ == addr@;
            lemma_first_match(devices, pe);
            if let Some(k) = first_match(devices, pe) {
                assert(alias_has_address(aliases[i], devices[k].bt_address@));
                assert(pa(aliases[i]));
            }
        }
    }
}

} // verus!
