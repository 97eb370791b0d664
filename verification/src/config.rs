//! The configuration: the agent port, this machine's identity, the device
//! aliases that the user keeps and the known peers; and the alias bookkeeping.

use vstd::prelude::*;
use crate::text::{owned, same_text};

verus! {

/// This machine as the agent announces it.
#[derive(Debug)]
pub struct Identity {
    pub hostname: String,
}

/// A name the user gave to a device, optionally bound to its Bluetooth address.
#[derive(Debug)]
pub struct DeviceAlias {
    pub name: String,
    pub bt_address: Option<String>,
}

/// Another machine that runs an agent.
#[derive(Debug)]
pub struct Peer {
    pub hostname: String,
    pub address: String,
    pub port: u16,
}

/// The whole configuration.
#[derive(Debug)]
pub struct Config {
    pub agent_port: u16,
    pub identity: Identity,
    pub devices: Vec<DeviceAlias>,
    pub peers: Vec<Peer>,
}

/// The port an agent listens on unless configured otherwise.
pub const DEFAULT_AGENT_PORT: u16 = 9400;

/// The alias is bound to exactly the address `addr`.
pub open spec fn alias_has_address(a: DeviceAlias, addr: Seq<char>) -> bool {
    a.bt_address matches Some(b) && b@ == addr
}

/// The alias survives a removal by `name` and, where given, by `address`:
/// it is kept when its name differs from `name` and it is not bound to `address`.
pub open spec fn alias_kept(a: DeviceAlias, name: Seq<char>, address: Option<Seq<char>>) -> bool {
    &&& a.name@ != name
    &&& match address {
        Some(addr) => !alias_has_address(a, addr),
        None => true,
    }
}

/// The aliases of `v` that survive a removal by `name` and `address`, in their order.
pub open spec fn surviving(v: Seq<DeviceAlias>, name: Seq<char>, address: Option<Seq<char>>) -> Seq<DeviceAlias> {
    v.filter(|a: DeviceAlias| alias_kept(a, name, address))
}

/// `after` is `before` with the alias `name` bound to `address`: the aliases of
/// `before` called `name` or bound to `address` are gone, the others keep their
/// order, and the alias `name` -> `address` comes last.
pub open spec fn alias_added(before: Seq<DeviceAlias>, after: Seq<DeviceAlias>, name: Seq<char>, address: Seq<char>) -> bool {
    &&& after.len() == surviving(before, name, Some(address)).len() + 1
    &&& after.drop_last() == surviving(before, name, Some(address))
    &&& after.last().name@ == name
    &&& alias_has_address(after.last(), address)
}

/// What an alias says: its name and the address it is bound to.
pub open spec fn alias_view(a: DeviceAlias) -> (Seq<char>, Option<Seq<char>>) {
    (a.name@, match a.bt_address { Some(b) => Some(b@), None => None })
}

impl DeviceAlias {
    /// A copy with the same name and address.
    pub fn duplicate(&self) -> (r: DeviceAlias)
        ensures
            r == *self,
    {
        let bt_address = match &self.bt_address {
            Some(a) => Some(a.clone()),
            None => None,
        };
        DeviceAlias { name: self.name.clone(), bt_address }
    }

    /// Whether this alias is bound to exactly `addr`.
    pub fn has_address(&self, addr: &str) -> (r: bool)
        ensures
            r == alias_has_address(*self, addr@),
    {
        match &self.bt_address {
            Some(b) => same_text(b.as_str(), addr),
            None => false,
        }
    }
}

/// The aliases of `v` whose name differs from `name` and that are not bound to `address`.
fn retain_aliases(v: &Vec<DeviceAlias>, name: &str, address: Option<&str>) -> (r: Vec<DeviceAlias>)
    ensures
        r@ == surviving(v@, name@, match address { Some(a) => Some(a@), None => None }),
{
    let ghost addr_view: Option<Seq<char>> = match address { Some(a) => Some(a@), None => None };
    let ghost pred = |a: DeviceAlias| alias_kept(a, name@, addr_view);
    let mut kept: Vec<DeviceAlias> = Vec::new();
    let mut i: usize = 0;
    while i < v.len()
        invariant
            i <= v.len(),
            addr_view == match address { Some(a) => Some(a@), None => None },
            pred == (|a: DeviceAlias| alias_kept(a, name@, addr_view)),
            kept@ == v@.take(i as int).filter(pred),
        decreases v.len() - i,
    {
        let a = &v[i];
        let keep = if same_text(a.name.as_str(), name) {
            false
        } else {
            match address {
                Some(addr) => !a.has_address(addr),
                None => true,
            }
        };
        proof {
            assert(v@.take(i + 1) =~= v@.take(i as int).push(v@[i as int]));
            v@.take(i as int).lemma_filter_push(v@[i as int], pred);
        }
        if keep {
            kept.push(a.duplicate());
        }
        i = i + 1;
    }
    assert(v@.take(v.len() as int) =~= v@);
    kept
}

impl Config {
    /// The configuration of a fresh installation on the machine called `hostname`
    /// ("unknown" where the name could not be found): default agent port, no aliases,
    /// no peers.
    pub fn with_hostname(hostname: Option<String>) -> (r: Config)
        ensures
            r.agent_port == DEFAULT_AGENT_PORT,
            r.identity.hostname@ == match hostname { Some(h) => h@, None => "unknown"@ },
            r.devices@.len() == 0,
            r.peers@.len() == 0,
    {
        let hostname = match hostname {
            Some(h) => h,
            None => owned("unknown"),
        };
        Config {
            agent_port: DEFAULT_AGENT_PORT,
            identity: Identity { hostname },
            devices: Vec::new(),
            peers: Vec::new(),
        }
    }

    /// Binds the alias `name` to `address`: every alias called `name` and every alias
    /// bound to `address` is dropped, the others keep their order, and the new alias
    /// comes last.
    pub fn add_alias(&mut self, name: &str, address: &str)
        ensures
            alias_added(old(self).devices@, final(self).devices@, name@, address@),
            final(self).agent_port == old(self).agent_port,
            final(self).identity == old(self).identity,
            final(self).peers == old(self).peers,
    {
        let mut kept = retain_aliases(&self.devices, name, Some(address));
        kept.push(DeviceAlias { name: owned(name), bt_address: Some(owned(address)) });
        self.devices = kept;
        proof {
            assert(self.devices@.drop_last() =~= surviving(old(self).devices@, name@, Some(address@)));
        }
    }

    /// Removes every alias called `query` and every alias bound to the address `query`;
    /// the others keep their order. Returns how many were removed.
    pub fn remove_alias(&mut self, query: &str) -> (removed: usize)
        ensures
            final(self).devices@ == surviving(old(self).devices@, query@, Some(query@)),
            removed == old(self).devices@.len() - final(self).devices@.len(),
            final(self).agent_port == old(self).agent_port,
            final(self).identity == old(self).identity,
            final(self).peers == old(self).peers,
    {
        let before = self.devices.len();
        let kept = retain_aliases(&self.devices, query, Some(query));
        proof {
            old(self).devices@.lemma_filter_len(|a: DeviceAlias| alias_kept(a, query@, Some(query@)));
        }
        self.devices = kept;
        before - self.devices.len()
    }

    /// Removes every alias called `name`; the others keep their order.
    pub fn remove_alias_named(&mut self, name: &str)
        ensures
            final(self).devices@ == surviving(old(self).devices@, name@, None),
            final(self).agent_port == old(self).agent_port,
            final(self).identity == old(self).identity,
            final(self).peers == old(self).peers,
    {
        self.devices = retain_aliases(&self.devices, name, None);
    }
}


/// Every alias of `surviving(v, name, address)` survives the removal.
proof fn lemma_surviving_kept(v: Seq<DeviceAlias>, name: Seq<char>, address: Option<Seq<char>>, i: int)
    requires
        0 <= i < surviving(v, name, address).len(),
    ensures
        alias_kept(surviving(v, name, address)[i], name, address),
{
    v.lemma_filter_pred(|a: DeviceAlias| alias_kept(a, name, address), i);
}

/// A removal drops nothing exactly when every alias survives it.
proof fn lemma_filter_keeps_all(v: Seq<DeviceAlias>, name: Seq<char>, address: Option<Seq<char>>)
    ensures
        (surviving(v, name, address).len() == v.len())
            <==> (forall|i: int| 0 <= i < v.len() ==> alias_kept(#[trigger] v[i], name, address)),
        (forall|i: int| 0 <= i < v.len() ==> alias_kept(#[trigger] v[i], name, address))
            ==> surviving(v, name, address) == v,
    decreases v.len(),
{
    let p = |a: DeviceAlias| alias_kept(a, name, address);
    reveal(Seq::filter);
    if v.len() > 0 {
        let w = v.drop_last();
        lemma_filter_keeps_all(w, name, address);
        w.lemma_filter_len(p);
        assert(v == w.push(v.last()));
        w.lemma_filter_push(v.last(), p);
        assert forall|i: int| 0 <= i < w.len() implies #[trigger] w[i] == v[i] by {}
        if forall|i: int| 0 <= i < v.len() ==> alias_kept(#[trigger] v[i], name, address) {
            assert(alias_kept(v[v.len() - 1], name, address));
        } else {
            let k = choose|k: int| 0 <= k < v.len() && !alias_kept(#[trigger] v[k], name, address);
            if k < v.len() - 1 {
                assert(!alias_kept(w[k], name, address));
            }
        }
    } else {
        assert(surviving(v, name, address) =~= v);
    }
}

/// Binding an alias leaves exactly one alias with that name and exactly one alias
/// bound to that address: the new one, which comes last.
pub proof fn law_alias_is_unique(before: Seq<DeviceAlias>, after: Seq<DeviceAlias>, name: Seq<char>, address: Seq<char>)
    requires
        alias_added(before, after, name, address),
    ensures
        after.last().name@ == name,
        alias_has_address(after.last(), address),
        forall|i: int| 0 <= i < after.len() - 1 ==> (#[trigger] after[i]).name@ != name,
        forall|i: int| 0 <= i < after.len() - 1 ==> !alias_has_address(#[trigger] after[i], address),
{
    assert forall|i: int| 0 <= i < after.len() - 1 implies (#[trigger] after[i]).name@ != name
        && !alias_has_address(after[i], address) by {
        assert(after[i] == after.drop_last()[i]);
        lemma_surviving_kept(before, name, Some(address), i);
    }
}

/// After a removal by `query` no alias is called `query` and none is bound to the
/// address `query`; the number removed is positive exactly when some alias was
/// called `query` or bound to it.
pub proof fn law_removal_is_complete(before: Seq<DeviceAlias>, query: Seq<char>)
    ensures
        forall|i: int| 0 <= i < surviving(before, query, Some(query)).len() ==>
            (#[trigger] surviving(before, query, Some(query))[i]).name@ != query
            && !alias_has_address(surviving(before, query, Some(query))[i], query),
        (before.len() - surviving(before, query, Some(query)).len() > 0) <==>
            (exists|i: int| 0 <= i < before.len() && ((#[trigger] before[i]).name@ == query || alias_has_address(before[i], query))),
{
    assert forall|i: int| 0 <= i < surviving(before, query, Some(query)).len() implies
        (#[trigger] surviving(before, query, Some(query))[i]).name@ != query
        && !alias_has_address(surviving(before, query, Some(query))[i], query) by {
        lemma_surviving_kept(before, query, Some(query), i);
    }
    lemma_filter_keeps_all(before, query, Some(query));
    before.lemma_filter_len(|a: DeviceAlias| alias_kept(a, query, Some(query)));
}

/// Deleting by name the alias just bound restores the earlier aliases, less those
/// that the binding displaced.
pub proof fn law_delete_undoes_add(before: Seq<DeviceAlias>, after: Seq<DeviceAlias>, name: Seq<char>, address: Seq<char>)
    requires
        alias_added(before, after, name, address),
    ensures
        surviving(after, name, None) == surviving(before, name, Some(address)),
{
    let p = |a: DeviceAlias| alias_kept(a, name, None);
    let rest = after.drop_last();
    assert(after == rest.push(after.last()));
    rest.lemma_filter_push(after.last(), p);
    assert forall|i: int| 0 <= i < rest.len() implies alias_kept(#[trigger] rest[i], name, None) by {
        lemma_surviving_kept(before, name, Some(address), i);
    }
    lemma_filter_keeps_all(rest, name, None);
}

/// Binding the same alias twice says no more than binding it once.
pub proof fn law_add_alias_idempotent(
    before: Seq<DeviceAlias>,
    once: Seq<DeviceAlias>,
    twice: Seq<DeviceAlias>,
    name: Seq<char>,
    address: Seq<char>,
)
    requires
        alias_added(before, once, name, address),
        alias_added(once, twice, name, address),
    ensures
        twice.map_values(|a: DeviceAlias| alias_view(a)) == once.map_values(|a: DeviceAlias| alias_view(a)),
{
    let p = |a: DeviceAlias| alias_kept(a, name, Some(address));
    let rest = once.drop_last();
    assert(once == rest.push(once.last()));
    rest.lemma_filter_push(once.last(), p);
    assert forall|i: int| 0 <= i < rest.len() implies alias_kept(#[trigger] rest[i], name, Some(address)) by {
        lemma_surviving_kept(before, name, Some(address), i);
    }
    lemma_filter_keeps_all(rest, name, Some(address));
    assert(twice.drop_last() == rest);
    assert(alias_view(twice.last()) == alias_view(once.last()));
    assert forall|i: int| 0 <= i < twice.len() implies #[trigger] twice[i] == once[i]
        || (i == twice.len() - 1 && alias_view(twice[i]) == alias_view(once[i])) by {
        if i < twice.len() - 1 {
            assert(twice[i] == twice.drop_last()[i]);
            assert(once[i] == rest[i]);
        }
    }
    assert(twice.map_values(|a: DeviceAlias| alias_view(a)) =~= once.map_values(|a: DeviceAlias| alias_view(a)));
}

} // verus!
