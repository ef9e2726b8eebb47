use vstd::prelude::*;
use vstd::string::*;

use crate::model::{Config, ServerInfo};
use crate::text::{append_decimal, decimal, same_text};

verus! {

#[verifier::external_type_specification]
#[verifier::external_body]
#[verifier::reject_recursive_types(K)]
#[verifier::reject_recursive_types(V)]
#[verifier::reject_recursive_types(S)]
pub struct ExDashMap<K, V, S>(dashmap::DashMap<K, V, S>);

/// The entries of a record map, by record identifier.
pub uninterp spec fn servers_of(m: dashmap::DashMap<String, ServerInfo>) -> Map<Seq<char>, ServerInfo>;

/// Relies on dashmap::DashMap::new: a new map is empty.
#[verifier::external_body]
fn map_new() -> (r: dashmap::DashMap<String, ServerInfo>)
    ensures
        servers_of(r) == no_records(),
{
    dashmap::DashMap::new()
}

/// Relies on dashmap::DashMap::insert: the key maps to the value afterwards,
/// replacing what it mapped to before; other entries stay.
#[verifier::external_body]
fn map_insert(m: &mut dashmap::DashMap<String, ServerInfo>, key: String, value: ServerInfo)
    ensures
        servers_of(*final(m)) == servers_of(*old(m)).insert(key@, value),
{
    m.insert(key, value);
}

/// Relies on dashmap::DashMap::remove: the key's entry, if any, is gone;
/// other entries stay.
#[verifier::external_body]
fn map_remove(m: &mut dashmap::DashMap<String, ServerInfo>, key: &str)
    ensures
        servers_of(*final(m)) == servers_of(*old(m)).remove(key@),
{
    m.remove(key);
}

/// Relies on dashmap::DashMap::retain: exactly the entries whose record is
/// fresh at `now` stay.
#[verifier::external_body]
fn map_retain_fresh(m: &mut dashmap::DashMap<String, ServerInfo>, now: u64, timeout: u64)
    ensures
        servers_of(*final(m)) == servers_of(*old(m)).restrict(
            servers_of(*old(m)).dom().filter(|k: Seq<char>| fresh_at(servers_of(*old(m))[k], now, timeout)),
        ),
{
    m.retain(|_, s| record_is_fresh(s, now, timeout));
}

/// Relies on dashmap::DashMap::iter: each entry is visited once, in some
/// order; keys and records are cloned.
#[verifier::external_body]
fn map_entries(m: &dashmap::DashMap<String, ServerInfo>) -> (r: Vec<(String, ServerInfo)>)
    ensures
        entries_match(r@, servers_of(*m)),
{
    m.iter().map(|e| (e.key().clone(), e.value().clone())).collect()
}

/// `es` lists the entries of `m`, each once, in some order.
pub open spec fn entries_match(es: Seq<(String, ServerInfo)>, m: Map<Seq<char>, ServerInfo>) -> bool {
    &&& forall|i: int| 0 <= i < es.len() ==> #[trigger] m.contains_key(es[i].0@) && m[es[i].0@] == es[i].1
    &&& forall|k: Seq<char>| #[trigger] m.contains_key(k) ==> exists|i: int| 0 <= i < es.len() && es[i].0@ == k
    &&& forall|i: int, j: int| 0 <= i < j < es.len() ==> es[i].0@ != es[j].0@
}

/// A registry without records.
pub open spec fn no_records() -> Map<Seq<char>, ServerInfo> {
    Map::empty()
}

/// A record is fresh at `now` while its age is below the timeout.
pub open spec fn fresh_at(s: ServerInfo, now: u64, timeout: u64) -> bool {
    (now as int) - (s.last_heartbeat as int) < timeout as int
}

/// Whether the record is fresh at `now`: its age is below the timeout.
pub fn record_is_fresh(s: &ServerInfo, now: u64, timeout: u64) -> (r: bool)
    ensures
        r == fresh_at(*s, now, timeout),
{
    if s.last_heartbeat > now {
        true
    } else {
        now - s.last_heartbeat < timeout
    }
}

/// The record stands for the server at `ip` and `port`.
pub open spec fn at_address(s: ServerInfo, ip: Seq<char>, port: i32) -> bool {
    s.ip@ == ip && s.port == port
}

/// Some record of `m` stands for the server at `ip` and `port`.
pub open spec fn has_address(m: Map<Seq<char>, ServerInfo>, ip: Seq<char>, port: i32) -> bool {
    exists|k: Seq<char>| #[trigger] m.contains_key(k) && at_address(m[k], ip, port)
}

/// The identifier of the record of `m` for `ip` and `port`.
pub open spec fn address_key(m: Map<Seq<char>, ServerInfo>, ip: Seq<char>, port: i32) -> Seq<char> {
    choose|k: Seq<char>| #[trigger] m.contains_key(k) && at_address(m[k], ip, port)
}

/// The identifiers of the records of `m` from `ip`.
pub open spec fn keys_from(m: Map<Seq<char>, ServerInfo>, ip: Seq<char>) -> Set<Seq<char>> {
    m.dom().filter(|k: Seq<char>| m[k].ip@ == ip)
}

/// How many records of `m` come from `ip`.
pub open spec fn count_from(m: Map<Seq<char>, ServerInfo>, ip: Seq<char>) -> nat {
    keys_from(m, ip).len()
}

/// Each record is filed under its identifier, and no two records stand for
/// the same address and port.
pub open spec fn registry_wf(m: Map<Seq<char>, ServerInfo>) -> bool {
    &&& m.dom().finite()
    &&& forall|k: Seq<char>| #[trigger] m.contains_key(k) ==> m[k].id@ == k
    &&& forall|k1: Seq<char>, k2: Seq<char>|
        #[trigger] m.contains_key(k1) && #[trigger] m.contains_key(k2) && k1 != k2 ==> !at_address(
            m[k1],
            m[k2].ip@,
            m[k2].port,
        )
}

/// What adding `info` to the records `m` gives, under the per-address quota
/// `max`: a record for the same address and port is replaced whatever the
/// quota; a new one is refused when its address already has `max` records.
pub open spec fn added(m: Map<Seq<char>, ServerInfo>, info: ServerInfo, max: nat) -> Option<
    Map<Seq<char>, ServerInfo>,
> {
    if has_address(m, info.ip@, info.port) {
        Some(m.remove(address_key(m, info.ip@, info.port)).insert(info.id@, info))
    } else if count_from(m, info.ip@) >= max {
        None
    } else {
        Some(m.insert(info.id@, info))
    }
}

fn find_address(entries: &Vec<(String, ServerInfo)>, ip: &str, port: i32) -> (r: Option<usize>)
    ensures
        match r {
            Some(i) => i < entries@.len() && at_address(entries@[i as int].1, ip@, port),
            None => forall|i: int| 0 <= i < entries@.len() ==> !at_address(#[trigger] entries@[i].1, ip@, port),
        },
{
    let mut i: usize = 0;
    while i < entries.len()
        invariant
            i <= entries@.len(),
            forall|j: int| 0 <= j < i ==> !at_address(#[trigger] entries@[j].1, ip@, port),
        decreases entries@.len() - i,
    {
        if entries[i].1.port == port && same_text(entries[i].1.ip.as_str(), ip) {
            return Some(i);
        }
        i += 1;
    }
    None
}

fn count_address(entries: &Vec<(String, ServerInfo)>, ip: &str, Ghost(m): Ghost<Map<Seq<char>, ServerInfo>>) -> (r: usize)
    requires
        entries_match(entries@, m),
        m.dom().finite(),
    ensures
        r == count_from(m, ip@),
{
    let mut n: usize = 0;
    let ghost mut seen: Set<Seq<char>> = Set::empty();
    let mut i: usize = 0;
    while i < entries.len()
        invariant
            entries_match(entries@, m),
            i <= entries@.len(),
            n <= i,
            seen.finite(),
            n == seen.len(),
            forall|k: Seq<char>| #[trigger] seen.contains(k) <==> exists|j: int|
                0 <= j < i && entries@[j].0@ == k && entries@[j].1.ip@ == ip@,
        decreases entries@.len() - i,
    {
        if same_text(entries[i].1.ip.as_str(), ip) {
            proof {
                let k = entries@[i as int].0@;
                if seen.contains(k) {
                    let j = choose|j: int| 0 <= j < i && entries@[j].0@ == k && entries@[j].1.ip@ == ip@;
                    assert(entries@[j].0@ != entries@[i as int].0@);
                }
                seen = seen.insert(k);
                assert forall|x: Seq<char>| #[trigger] seen.contains(x) <==> exists|j: int|
                    0 <= j < i + 1 && entries@[j].0@ == x && entries@[j].1.ip@ == ip@ by {
                    if seen.contains(x) && x != k {
                        let j = choose|j: int| 0 <= j < i && entries@[j].0@ == x && entries@[j].1.ip@ == ip@;
                        assert(0 <= j < i + 1);
                    }
                    if x == k {
                        assert(entries@[i as int].0@ == x);
                    }
                }
            }
            n += 1;
        } else {
            proof {
                assert forall|x: Seq<char>| #[trigger] seen.contains(x) <==> exists|j: int|
                    0 <= j < i + 1 && entries@[j].0@ == x && entries@[j].1.ip@ == ip@ by {
                    if exists|j: int| 0 <= j < i + 1 && entries@[j].0@ == x && entries@[j].1.ip@ == ip@ {
                        let j = choose|j: int| 0 <= j < i + 1 && entries@[j].0@ == x && entries@[j].1.ip@ == ip@;
                        assert(j != i);
                    }
                }
            }
        }
        i += 1;
    }
    proof {
        assert forall|x: Seq<char>| seen.contains(x) <==> #[trigger] keys_from(m, ip@).contains(x) by {
            if seen.contains(x) {
                let j = choose|j: int| 0 <= j < entries@.len() && entries@[j].0@ == x && entries@[j].1.ip@ == ip@;
                assert(m.contains_key(entries@[j].0@));
            }
            if keys_from(m, ip@).contains(x) {
                assert(m.contains_key(x));
                let j = choose|j: int| 0 <= j < entries@.len() && entries@[j].0@ == x;
                assert(m.contains_key(entries@[j].0@));
            }
        }
        assert(seen =~= keys_from(m, ip@));
    }
    n
}

proof fn lemma_found_key(m: Map<Seq<char>, ServerInfo>, k: Seq<char>, ip: Seq<char>, port: i32)
    requires
        registry_wf(m),
        m.contains_key(k),
        at_address(m[k], ip, port),
    ensures
        has_address(m, ip, port),
        address_key(m, ip, port) == k,
{
    let c = address_key(m, ip, port);
    assert(m.contains_key(c) && at_address(m[c], ip, port));
    if c != k {
        assert(!at_address(m[c], m[k].ip@, m[k].port));
    }
}

pub(crate) proof fn lemma_added_wf(m: Map<Seq<char>, ServerInfo>, info: ServerInfo, max: nat)
    requires
        registry_wf(m),
        added(m, info, max) is Some,
    ensures
        registry_wf(added(m, info, max).unwrap()),
{
    let r = added(m, info, max).unwrap();
    let base = if has_address(m, info.ip@, info.port) {
        m.remove(address_key(m, info.ip@, info.port))
    } else {
        m
    };
    assert(r == base.insert(info.id@, info));
    assert forall|k: Seq<char>| #[trigger] base.contains_key(k) implies !at_address(base[k], info.ip@, info.port) by {
        if has_address(m, info.ip@, info.port) {
            let e = address_key(m, info.ip@, info.port);
            assert(m.contains_key(e) && at_address(m[e], info.ip@, info.port));
            assert(k != e);
            assert(!at_address(m[k], m[e].ip@, m[e].port));
        }
    }
    assert forall|k1: Seq<char>, k2: Seq<char>|
        #[trigger] r.contains_key(k1) && #[trigger] r.contains_key(k2) && k1 != k2 implies !at_address(
            r[k1],
            r[k2].ip@,
            r[k2].port,
        ) by {
        if k1 == info.id@ {
            assert(base.contains_key(k2));
        } else if k2 == info.id@ {
            assert(base.contains_key(k1));
        } else {
            assert(m.contains_key(k1) && m.contains_key(k2));
        }
    }
}

proof fn lemma_restrict_wf(m: Map<Seq<char>, ServerInfo>, keep: Set<Seq<char>>)
    requires
        registry_wf(m),
    ensures
        registry_wf(m.restrict(keep)),
{
    let r = m.restrict(keep);
    assert(r.dom() =~= m.dom().intersect(keep));
    assert forall|k1: Seq<char>, k2: Seq<char>|
        #[trigger] r.contains_key(k1) && #[trigger] r.contains_key(k2) && k1 != k2 implies !at_address(
            r[k1],
            r[k2].ip@,
            r[k2].port,
        ) by {
        assert(m.contains_key(k1) && m.contains_key(k2));
    }
}

proof fn lemma_entries_len(es: Seq<(String, ServerInfo)>, m: Map<Seq<char>, ServerInfo>)
    requires
        entries_match(es, m),
    ensures
        es.len() == m.dom().len(),
{
    let keys = es.map_values(|e: (String, ServerInfo)| e.0@);
    assert forall|i: int, j: int| 0 <= i < keys.len() && 0 <= j < keys.len() && i != j implies keys[i] != keys[j] by {
        if i < j {
            assert(es[i].0@ != es[j].0@);
        } else {
            assert(es[j].0@ != es[i].0@);
        }
    }
    assert(keys.no_duplicates());
    keys.unique_seq_to_set();
    assert forall|k: Seq<char>| keys.to_set().contains(k) <==> #[trigger] m.dom().contains(k) by {
        if keys.to_set().contains(k) {
            let i = choose|i: int| 0 <= i < keys.len() && keys[i] == k;
            assert(m.contains_key(es[i].0@));
        }
        if m.dom().contains(k) {
            let i = choose|i: int| 0 <= i < es.len() && es[i].0@ == k;
            assert(keys[i] == k);
        }
    }
    assert(keys.to_set() =~= m.dom());
}

/// The registry of verified server records.
///
/// Every change takes `&mut self`, so a caller that shares the registry
/// serializes the changes: the quota check of `add_server` and the insertion
/// that follows it cannot interleave with another heartbeat.
pub struct ServerStorage {
    servers: dashmap::DashMap<String, ServerInfo>,
    config: Config,
}

impl ServerStorage {
    /// The records, by identifier.
    pub closed spec fn records(&self) -> Map<Seq<char>, ServerInfo> {
        servers_of(self.servers)
    }

    /// The configuration that the registry was made with.
    pub closed spec fn settings(&self) -> Config {
        self.config
    }

    /// The registry's invariant.
    pub open spec fn wf(&self) -> bool {
        registry_wf(self.records())
    }

    /// An empty registry.
    pub fn new(config: Config) -> (r: ServerStorage)
        ensures
            r.wf(),
            r.records() == no_records(),
            r.settings() == config,
    {
        ServerStorage { servers: map_new(), config }
    }

    /// The configuration that the registry was made with.
    pub fn config(&self) -> (r: Config)
        ensures
            r == self.settings(),
    {
        self.config
    }

    /// Adds a verified record. A record for the same address and port is
    /// replaced, whatever the quota; a record for a new port is refused when
    /// its address already has `max_servers_per_ip` records.
    pub fn add_server(&mut self, server_info: ServerInfo) -> (r: Result<(), String>)
        requires
            old(self).wf(),
        ensures
            final(self).wf(),
            final(self).settings() == old(self).settings(),
            match added(old(self).records(), server_info, old(self).settings().max_servers_per_ip as nat) {
                Some(m) => r is Ok && final(self).records() == m,
                None => final(self).records() == old(self).records() && match r {
                    Err(e) => e@ == "Maximum number of servers ("@ + decimal(
                        old(self).settings().max_servers_per_ip as nat,
                    ) + ") reached for this IP"@,
                    Ok(_) => false,
                },
            },
    {
        let ghost m = self.records();
        let ghost max = self.config.max_servers_per_ip as nat;
        proof {
            if added(m, server_info, max) is Some {
                lemma_added_wf(m, server_info, max);
            }
        }
        let entries = map_entries(&self.servers);
        match find_address(&entries, server_info.ip.as_str(), server_info.port) {
            Some(i) => {
                proof {
                    assert(m.contains_key(entries@[i as int].0@));
                    lemma_found_key(m, entries@[i as int].0@, server_info.ip@, server_info.port);
                }
                map_remove(&mut self.servers, entries[i].0.as_str());
            },
            None => {
                proof {
                    if has_address(m, server_info.ip@, server_info.port) {
                        let k = address_key(m, server_info.ip@, server_info.port);
                        let j = choose|j: int| 0 <= j < entries@.len() && entries@[j].0@ == k;
                        assert(!at_address(entries@[j].1, server_info.ip@, server_info.port));
                    }
                }
                let count = count_address(&entries, server_info.ip.as_str(), Ghost(m));
                if count >= self.config.max_servers_per_ip {
                    let mut msg = append_decimal(
                        String::from_str("Maximum number of servers ("),
                        self.config.max_servers_per_ip as u64,
                    );
                    msg.append(") reached for this IP");
                    return Err(msg);
                }
            },
        }
        let key = server_info.id.clone();
        map_insert(&mut self.servers, key, server_info);
        Ok(())
    }

    /// Removes every record whose age at `now` is at least the timeout.
    pub fn cleanup_stale_servers(&mut self, now: u64)
        requires
            old(self).wf(),
        ensures
            final(self).wf(),
            final(self).settings() == old(self).settings(),
            final(self).records() == old(self).records().restrict(
                old(self).records().dom().filter(
                    |k: Seq<char>| fresh_at(old(self).records()[k], now, old(self).settings().server_timeout_secs),
                ),
            ),
    {
        let ghost m = self.records();
        map_retain_fresh(&mut self.servers, now, self.config.server_timeout_secs);
        proof {
            lemma_restrict_wf(m, m.dom().filter(|k: Seq<char>| fresh_at(m[k], now, self.config.server_timeout_secs)));
        }
    }

    /// The records, each once, in no particular order.
    pub fn get_servers(&self) -> (r: Vec<ServerInfo>)
        requires
            self.wf(),
        ensures
            r@.len() == self.records().dom().len(),
            forall|i: int| 0 <= i < r@.len() ==> #[trigger] self.records().contains_key(r@[i].id@)
                && self.records()[r@[i].id@] == r@[i],
            forall|k: Seq<char>| #[trigger] self.records().contains_key(k) ==> exists|i: int|
                0 <= i < r@.len() && r@[i] == self.records()[k],
    {
        let mut entries = map_entries(&self.servers);
        let ghost m = self.records();
        let ghost es = entries@;
        let mut out: Vec<ServerInfo> = Vec::new();
        while entries.len() > 0
            invariant
                entries_match(es, m),
                entries@ == es.subrange(0, entries@.len() as int),
                out@.len() + entries@.len() == es.len(),
                forall|j: int| 0 <= j < out@.len() ==> #[trigger] out@[j] == es[es.len() - 1 - j].1,
            decreases entries@.len(),
        {
            let (_, record) = entries.pop().unwrap();
            out.push(record);
        }
        proof {
            assert forall|j: int| 0 <= j < out@.len() implies #[trigger] m.contains_key(out@[j].id@)
                && m[out@[j].id@] == out@[j] by {
                let e = es.len() - 1 - j;
                assert(m.contains_key(es[e].0@));
                assert(out@[j] == es[e].1);
            }
            assert forall|k: Seq<char>| #[trigger] m.contains_key(k) implies exists|j: int|
                0 <= j < out@.len() && out@[j] == m[k] by {
                let e = choose|e: int| 0 <= e < es.len() && es[e].0@ == k;
                let j = es.len() - 1 - e;
                assert(out@[j] == es[es.len() - 1 - j].1);
            }
            lemma_entries_len(es, m);
        }
        out
    }

    /// Removes the record with identifier `id`, if there is one.
    pub fn remove_server(&mut self, id: &str)
        requires
            old(self).wf(),
        ensures
            final(self).wf(),
            final(self).settings() == old(self).settings(),
            final(self).records() == old(self).records().remove(id@),
    {
        map_remove(&mut self.servers, id);
    }

    /// The identifier of the record for `ip` and `port`, if there is one.
    pub fn find_server(&self, ip: &str, port: i32) -> (r: Option<String>)
        requires
            self.wf(),
        ensures
            match r {
                Some(id) => has_address(self.records(), ip@, port) && id@ == address_key(self.records(), ip@, port),
                None => !has_address(self.records(), ip@, port),
            },
    {
        let ghost m = self.records();
        let entries = map_entries(&self.servers);
        match find_address(&entries, ip, port) {
            Some(i) => {
                proof {
                    assert(m.contains_key(entries@[i as int].0@));
                    lemma_found_key(m, entries@[i as int].0@, ip@, port);
                }
                let id = entries[i].0.clone();
                Some(id)
            },
            None => {
                proof {
                    if has_address(m, ip@, port) {
                        let k = address_key(m, ip@, port);
                        let j = choose|j: int| 0 <= j < entries@.len() && entries@[j].0@ == k;
                        assert(!at_address(entries@[j].1, ip@, port));
                    }
                }
                None
            },
        }
    }
}

} // verus!
