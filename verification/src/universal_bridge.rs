//! The registry of connected projects: each project is known by its name,
//! with the digest of its key, its capabilities, its status and its
//! routing counters. The forwarding itself goes over the network and is not
//! part of this module; what is decided around it is.

use vstd::prelude::*;
use vstd::string::*;
use crate::text::{hex_encode, hex_lower, owned, str_eq};
use crate::threshold_crypto::{sha256, sha256_spec};
use crate::clock::unix_secs;

verus! {

/// Whether a project answers.
#[derive(Debug, Clone, Copy, PartialEq, Eq, Structural)]
pub enum ProjectStatus {
    Online,
    Offline,
    Error,
}

/// What a project can take or give.
#[derive(Debug, Clone, Copy, PartialEq, Eq, Structural)]
pub enum Capability {
    ReceiveOrders,
    ReceiveSettlements,
    ReceiveISO20022,
    ReceiveGhostCommands,
    SendData,
    Bidirectional,
}

/// A connected project.
#[derive(Debug, Clone)]
pub struct ProjectConnection {
    pub name: String,
    pub endpoint_url: String,
    pub auth_key_hmac: String,
    pub capabilities: Vec<Capability>,
    pub status: ProjectStatus,
    pub added_at: i64,
    pub last_seen: i64,
    pub total_routed: u64,
    pub total_errors: u64,
    pub description: String,
}

impl ProjectConnection {
    /// Whether two records hold the same data.
    pub open spec fn same_as(&self, other: &ProjectConnection) -> bool {
        &&& self.name == other.name
        &&& self.endpoint_url == other.endpoint_url
        &&& self.auth_key_hmac == other.auth_key_hmac
        &&& self.capabilities@ == other.capabilities@
        &&& self.status == other.status
        &&& self.added_at == other.added_at
        &&& self.last_seen == other.last_seen
        &&& self.total_routed == other.total_routed
        &&& self.total_errors == other.total_errors
        &&& self.description == other.description
    }

    /// A copy holding the same data.
    pub fn duplicate(&self) -> (r: ProjectConnection)
        ensures
            r.same_as(self),
    {
        ProjectConnection {
            name: self.name.clone(),
            endpoint_url: self.endpoint_url.clone(),
            auth_key_hmac: self.auth_key_hmac.clone(),
            capabilities: self.capabilities.clone(),
            status: self.status,
            added_at: self.added_at,
            last_seen: self.last_seen,
            total_routed: self.total_routed,
            total_errors: self.total_errors,
            description: self.description.clone(),
        }
    }
}

/// The digest a key is kept as: the lowercase hexadecimal SHA-256 of its
/// bytes.
pub open spec fn key_digest(key: Seq<u8>) -> Seq<char> {
    hex_lower(sha256_spec(key))
}

/// The digest of a key.
pub fn hash_key(key: &str) -> (r: String)
    ensures
        r@ == key_digest(key.spec_bytes()),
{
    let digest = sha256(key.as_bytes());
    hex_encode(digest.as_slice())
}

/// Whether the record at index `i` of `s` is named `name`.
pub open spec fn holds_name(s: Seq<ProjectConnection>, name: Seq<char>, i: int) -> bool {
    0 <= i < s.len() && s[i].name@ == name
}

/// Whether some record of `s` is named `name`.
pub open spec fn has_name(s: Seq<ProjectConnection>, name: Seq<char>) -> bool {
    exists|i: int| holds_name(s, name, i)
}

/// Whether no two records of `s` share a name.
pub open spec fn names_unique(s: Seq<ProjectConnection>) -> bool {
    forall|i: int, j: int| 0 <= i < j < s.len() ==> s[i].name@ != s[j].name@
}

/// The record named `name`, if any.
pub open spec fn lookup(s: Seq<ProjectConnection>, name: Seq<char>) -> Option<ProjectConnection> {
    if has_name(s, name) {
        Some(s[choose|i: int| holds_name(s, name, i)])
    } else {
        None
    }
}

/// With names unique, the record at an index holding a name is the one
/// looked up by that name.
pub proof fn lemma_lookup_at(s: Seq<ProjectConnection>, name: Seq<char>, i: int)
    requires
        names_unique(s),
        holds_name(s, name, i),
    ensures
        lookup(s, name) == Some(s[i]),
{
    let k = choose|k: int| holds_name(s, name, k);
    assert(holds_name(s, name, k));
    if k != i {
        if k < i {
            assert(s[k].name@ != s[i].name@);
        } else {
            assert(s[i].name@ != s[k].name@);
        }
    }
}

/// Whether `p` is the record of a project registered at time `now`:
/// offline, seen and added at `now`, with no traffic yet and the digest of
/// its key.
pub open spec fn is_new_project(
    p: ProjectConnection,
    name: Seq<char>,
    endpoint_url: Seq<char>,
    auth_key: Seq<u8>,
    capabilities: Seq<Capability>,
    description: Seq<char>,
    now: i64,
) -> bool {
    &&& p.name@ == name
    &&& p.endpoint_url@ == endpoint_url
    &&& p.auth_key_hmac@ == key_digest(auth_key)
    &&& p.capabilities@ == capabilities
    &&& p.status == ProjectStatus::Offline
    &&& p.added_at == now
    &&& p.last_seen == now
    &&& p.total_routed == 0
    &&& p.total_errors == 0
    &&& p.description@ == description
}

/// The index of the record named `name`, if any.
fn position(v: &Vec<ProjectConnection>, name: &str) -> (r: Option<usize>)
    ensures
        match r {
            Some(i) => holds_name(v@, name@, i as int),
            None => !has_name(v@, name@),
        },
{
    let mut i: usize = 0;
    while i < v.len()
        invariant
            i <= v@.len(),
            forall|j: int| 0 <= j < i ==> v@[j].name@ != name@,
        decreases v@.len() - i,
    {
        if str_eq(v[i].name.as_str(), name) {
            return Some(i);
        }
        i = i + 1;
    }
    assert forall|j: int| !holds_name(v@, name@, j) by {}
    None
}

/// Whether a list of capabilities holds `c`.
fn has_capability(caps: &Vec<Capability>, c: Capability) -> (r: bool)
    ensures
        r == caps@.contains(c),
{
    let mut i: usize = 0;
    while i < caps.len()
        invariant
            i <= caps@.len(),
            forall|j: int| 0 <= j < i ==> caps@[j] != c,
        decreases caps@.len() - i,
    {
        if caps[i] == c {
            assert(caps@[i as int] == c);
            return true;
        }
        i = i + 1;
    }
    false
}

/// The registry of connected projects and its forwarding counters.
pub struct UniversalBridge {
    projects: Vec<ProjectConnection>,
    total_forwarded: u64,
    total_errors: u64,
}

impl UniversalBridge {
    #[verifier::type_invariant]
    closed spec fn inv(&self) -> bool {
        names_unique(self.projects@)
    }

    /// The records, one per name.
    pub closed spec fn records(&self) -> Seq<ProjectConnection> {
        self.projects@
    }

    /// The number of forwards that succeeded.
    pub closed spec fn spec_total_forwarded(&self) -> u64 {
        self.total_forwarded
    }

    /// The number of forwards that failed.
    pub closed spec fn spec_total_errors(&self) -> u64 {
        self.total_errors
    }

    /// An empty registry.
    pub fn new() -> (r: UniversalBridge)
        ensures
            r.records().len() == 0,
            r.spec_total_forwarded() == 0,
            r.spec_total_errors() == 0,
    {
        UniversalBridge { projects: Vec::new(), total_forwarded: 0, total_errors: 0 }
    }

    /// The names of the registry are unique.
    pub fn project_count(&self) -> (r: usize)
        ensures
            r == self.records().len(),
            names_unique(self.records()),
    {
        proof {
            use_type_invariant(self);
        }
        self.projects.len()
    }

    /// Registers a project at time `now`, keeping only the digest of its
    /// key. A project already registered under the name is replaced.
    pub fn register_project_at(
        &mut self,
        name: &str,
        endpoint_url: &str,
        auth_key: &str,
        capabilities: Vec<Capability>,
        description: &str,
        now: i64,
    )
        ensures
            names_unique(final(self).records()),
            lookup(final(self).records(), name@) matches Some(p)
                && is_new_project(p, name@, endpoint_url@, auth_key.spec_bytes(), capabilities@, description@, now),
            forall|n: Seq<char>| n != name@ ==> lookup(final(self).records(), n) == lookup(old(self).records(), n),
            final(self).records().len() == old(self).records().len() + if has_name(old(self).records(), name@) { 0int } else { 1int },
            final(self).spec_total_forwarded() == old(self).spec_total_forwarded(),
            final(self).spec_total_errors() == old(self).spec_total_errors(),
    {
        proof {
            use_type_invariant(&*self);
        }
        let record = ProjectConnection {
            name: owned(name),
            endpoint_url: owned(endpoint_url),
            auth_key_hmac: hash_key(auth_key),
            capabilities: capabilities,
            status: ProjectStatus::Offline,
            added_at: now,
            last_seen: now,
            total_routed: 0,
            total_errors: 0,
            description: owned(description),
        };
        let mut v: Vec<ProjectConnection> = Vec::new();
        std::mem::swap(&mut v, &mut self.projects);
        let ghost before = v@;
        let ghost k: int;
        match position(&v, name) {
            Some(i) => {
                let _replaced = v.remove(i);
                v.insert(i, record);
                proof {
                    k = i as int;
                    assert(v@ =~= before.update(i as int, v@[i as int]));
                    assert forall|j: int| 0 <= j < v@.len() implies #[trigger] v@[j].name@ == before[j].name@ by {}
                }
            },
            None => {
                v.push(record);
                proof {
                    k = before.len() as int;
                    assert(v@.drop_last() =~= before);
                    assert forall|j: int| 0 <= j < before.len() implies #[trigger] v@[j].name@ != v@.last().name@ by {
                        assert(!holds_name(before, name@, j));
                    }
                }
            },
        }
        proof {
            lemma_lookup_at(v@, name@, k);
            assert forall|n: Seq<char>| n != name@ implies lookup(v@, n) == lookup(before, n) by {
                if has_name(before, n) {
                    let j = choose|j: int| holds_name(before, n, j);
                    assert(j != k);
                    assert(v@[j] == before[j]);
                    lemma_lookup_at(before, n, j);
                    lemma_lookup_at(v@, n, j);
                } else {
                    assert forall|j: int| !holds_name(v@, n, j) by {
                        if 0 <= j < v@.len() && j != k {
                            assert(v@[j] == before[j]);
                            assert(!holds_name(before, n, j));
                        }
                    }
                }
            }
        }
        self.projects = v;
    }

    /// Registers a project now, keeping only the digest of its key.
    pub fn register_project(
        &mut self,
        name: &str,
        endpoint_url: &str,
        auth_key: &str,
        capabilities: Vec<Capability>,
        description: &str,
    )
        ensures
            names_unique(final(self).records()),
            lookup(final(self).records(), name@) matches Some(p)
                && is_new_project(p, name@, endpoint_url@, auth_key.spec_bytes(), capabilities@, description@, p.added_at),
            forall|n: Seq<char>| n != name@ ==> lookup(final(self).records(), n) == lookup(old(self).records(), n),
            final(self).spec_total_forwarded() == old(self).spec_total_forwarded(),
            final(self).spec_total_errors() == old(self).spec_total_errors(),
    {
        let now = unix_secs() as i64;
        self.register_project_at(name, endpoint_url, auth_key, capabilities, description, now);
    }

    /// Removes the project of that name; whether there was one.
    pub fn remove_project(&mut self, name: &str) -> (r: bool)
        ensures
            names_unique(final(self).records()),
            r == has_name(old(self).records(), name@),
            lookup(final(self).records(), name@) is None,
            forall|n: Seq<char>| n != name@ ==> lookup(final(self).records(), n) == lookup(old(self).records(), n),
            final(self).records().len() == old(self).records().len() - if r { 1int } else { 0int },
            final(self).spec_total_forwarded() == old(self).spec_total_forwarded(),
            final(self).spec_total_errors() == old(self).spec_total_errors(),
    {
        proof {
            use_type_invariant(&*self);
        }
        match position(&self.projects, name) {
            None => false,
            Some(i) => {
                let mut v: Vec<ProjectConnection> = Vec::new();
                std::mem::swap(&mut v, &mut self.projects);
                let ghost before = v@;
                let _gone = v.remove(i);
                proof {
                    let ii = i as int;
                    assert forall|j: int| 0 <= j < v@.len() implies #[trigger] v@[j] == before[if j < ii { j } else { j + 1 }] by {}
                    assert forall|a: int, b: int| 0 <= a < b < v@.len() implies v@[a].name@ != v@[b].name@ by {
                        assert(v@[a] == before[if a < ii { a } else { a + 1 }]);
                        assert(v@[b] == before[if b < ii { b } else { b + 1 }]);
                    }
                    assert forall|j: int| !holds_name(v@, name@, j) by {
                        if 0 <= j < v@.len() {
                            assert(v@[j] == before[if j < ii { j } else { j + 1 }]);
                        }
                    }
                    assert forall|n: Seq<char>| n != name@ implies lookup(v@, n) == lookup(before, n) by {
                        if has_name(before, n) {
                            let j = choose|j: int| holds_name(before, n, j);
                            assert(j != ii);
                            let j2 = if j < ii { j } else { j - 1 };
                            assert(v@[j2] == before[j]);
                            lemma_lookup_at(before, n, j);
                            lemma_lookup_at(v@, n, j2);
                        } else {
                            assert forall|j: int| !holds_name(v@, n, j) by {
                                if 0 <= j < v@.len() {
                                    let j0 = if j < ii { j } else { j + 1 };
                                    assert(v@[j] == before[j0]);
                                    assert(!holds_name(before, n, j0));
                                }
                            }
                        }
                    }
                }
                self.projects = v;
                true
            },
        }
    }

    /// The record of the project of that name.
    pub fn get_project(&self, name: &str) -> (r: Option<ProjectConnection>)
        ensures
            match r {
                Some(p) => lookup(self.records(), name@) matches Some(q) && p.same_as(&q),
                None => lookup(self.records(), name@) is None,
            },
    {
        proof {
            use_type_invariant(self);
        }
        match position(&self.projects, name) {
            Some(i) => {
                proof {
                    lemma_lookup_at(self.projects@, name@, i as int);
                }
                Some(self.projects[i].duplicate())
            },
            None => None,
        }
    }

    /// Copies of all the records, in registry order.
    pub fn list_projects(&self) -> (r: Vec<ProjectConnection>)
        ensures
            r@.len() == self.records().len(),
            forall|i: int| 0 <= i < r@.len() ==> #[trigger] r@[i].same_as(&self.records()[i]),
    {
        let mut out: Vec<ProjectConnection> = Vec::new();
        let mut i: usize = 0;
        while i < self.projects.len()
            invariant
                i <= self.projects@.len(),
                out@.len() == i,
                forall|j: int| 0 <= j < i ==> #[trigger] out@[j].same_as(&self.projects@[j]),
            decreases self.projects@.len() - i,
        {
            out.push(self.projects[i].duplicate());
            i = i + 1;
        }
        out
    }

    /// The names of the projects a broadcast reaches, in registry order:
    /// all of them, or those that have the capability asked for.
    pub fn broadcast_targets(&self, capability: Option<Capability>) -> (r: Vec<String>)
        ensures
            r@.map_values(|s: String| s@) == self.records().filter(|p: ProjectConnection| reaches(p, capability)).map_values(|p: ProjectConnection| p.name@),
    {
        let mut out: Vec<String> = Vec::new();
        let ghost recs = self.projects@;
        let ghost pred = |p: ProjectConnection| reaches(p, capability);
        let mut i: usize = 0;
        while i < self.projects.len()
            invariant
                recs == self.projects@,
                pred == (|p: ProjectConnection| reaches(p, capability)),
                i <= recs.len(),
                out@.map_values(|s: String| s@) == recs.take(i as int).filter(pred).map_values(|p: ProjectConnection| p.name@),
            decreases recs.len() - i,
        {
            let p = &self.projects[i];
            let take = match capability {
                None => true,
                Some(c) => has_capability(&p.capabilities, c),
            };
            let ghost out_before = out@;
            proof {
                assert(recs.take(i + 1).drop_last() =~= recs.take(i as int));
                assert(recs.take(i + 1).last() == recs[i as int]);
                reveal(Seq::filter);
                assert(pred(recs[i as int]) == take);
                assert(recs.take(i + 1).filter(pred) == if pred(recs[i as int]) {
                    recs.take(i as int).filter(pred).push(recs[i as int])
                } else {
                    recs.take(i as int).filter(pred)
                });
            }
            if take {
                out.push(p.name.clone());
                proof {
                    assert(out@ == out_before.push(out@.last()));
                    assert(out@.map_values(|s: String| s@) =~= out_before.map_values(|s: String| s@).push(recs[i as int].name@));
                    assert(recs.take(i as int).filter(pred).push(recs[i as int]).map_values(|p: ProjectConnection| p.name@)
                        =~= recs.take(i as int).filter(pred).map_values(|p: ProjectConnection| p.name@).push(recs[i as int].name@));
                }
            }
            i = i + 1;
        }
        assert(recs.take(recs.len() as int) =~= recs);
        out
    }

    /// Marks the project of that name online, seen at time `now`.
    pub fn mark_online_at(&mut self, name: &str, now: i64)
        ensures
            names_unique(final(self).records()),
            final(self).records().len() == old(self).records().len(),
            forall|i: int| 0 <= i < old(self).records().len() ==> {
                let p = old(self).records()[i];
                let q = #[trigger] final(self).records()[i];
                if p.name@ == name@ {
                    q == ProjectConnection { status: ProjectStatus::Online, last_seen: now, ..p }
                } else {
                    q == p
                }
            },
            final(self).spec_total_forwarded() == old(self).spec_total_forwarded(),
            final(self).spec_total_errors() == old(self).spec_total_errors(),
    {
        self.update_named(name, true, now, false);
    }

    /// Marks the project of that name online now.
    pub fn mark_online(&mut self, name: &str)
        ensures
            names_unique(final(self).records()),
            final(self).records().len() == old(self).records().len(),
            forall|i: int| 0 <= i < old(self).records().len() ==> {
                let p = old(self).records()[i];
                let q = #[trigger] final(self).records()[i];
                if p.name@ == name@ {
                    q == ProjectConnection { status: ProjectStatus::Online, last_seen: q.last_seen, ..p }
                } else {
                    q == p
                }
            },
    {
        let now = unix_secs() as i64;
        self.mark_online_at(name, now);
    }

    /// Marks the project of that name offline.
    pub fn mark_offline(&mut self, name: &str)
        ensures
            names_unique(final(self).records()),
            final(self).records().len() == old(self).records().len(),
            forall|i: int| 0 <= i < old(self).records().len() ==> {
                let p = old(self).records()[i];
                let q = #[trigger] final(self).records()[i];
                if p.name@ == name@ {
                    q == ProjectConnection { status: ProjectStatus::Offline, ..p }
                } else {
                    q == p
                }
            },
            final(self).spec_total_forwarded() == old(self).spec_total_forwarded(),
            final(self).spec_total_errors() == old(self).spec_total_errors(),
    {
        self.update_named(name, false, 0, false);
    }

    /// Records a forward to the project of that name that succeeded at time
    /// `now`: the project is online, seen at `now`, with one more routed
    /// command, and the registry counts one more forward (wrapping, as an
    /// atomic counter does).
    pub fn record_forward_at(&mut self, name: &str, now: i64)
        requires
            forall|i: int| #![trigger old(self).records()[i]]
                0 <= i < old(self).records().len() && old(self).records()[i].name@ == name@
                    ==> old(self).records()[i].total_routed < u64::MAX,
        ensures
            names_unique(final(self).records()),
            final(self).records().len() == old(self).records().len(),
            forall|i: int| 0 <= i < old(self).records().len() ==> {
                let p = old(self).records()[i];
                let q = #[trigger] final(self).records()[i];
                if p.name@ == name@ {
                    q == ProjectConnection { status: ProjectStatus::Online, last_seen: now, total_routed: (p.total_routed + 1) as u64, ..p }
                } else {
                    q == p
                }
            },
            final(self).spec_total_forwarded() == (old(self).spec_total_forwarded() + 1) as u64 || (
                old(self).spec_total_forwarded() == u64::MAX && final(self).spec_total_forwarded() == 0),
            final(self).spec_total_errors() == old(self).spec_total_errors(),
    {
        self.update_named(name, true, now, true);
        proof {
            use_type_invariant(&*self);
        }
        self.total_forwarded = self.total_forwarded.wrapping_add(1);
    }

    /// Sets the status of the project of that name: online and seen at
    /// `now` (counting one more routed command when `routed`), or offline.
    fn update_named(&mut self, name: &str, online: bool, now: i64, routed: bool)
        requires
            routed ==> online,
            routed ==> forall|i: int| #![trigger old(self).records()[i]]
                0 <= i < old(self).records().len() && old(self).records()[i].name@ == name@
                    ==> old(self).records()[i].total_routed < u64::MAX,
        ensures
            names_unique(final(self).records()),
            final(self).records().len() == old(self).records().len(),
            forall|i: int| 0 <= i < old(self).records().len() ==> {
                let p = old(self).records()[i];
                let q = #[trigger] final(self).records()[i];
                if p.name@ == name@ {
                    if !online {
                        q == ProjectConnection { status: ProjectStatus::Offline, ..p }
                    } else if routed {
                        q == ProjectConnection { status: ProjectStatus::Online, last_seen: now, total_routed: (p.total_routed + 1) as u64, ..p }
                    } else {
                        q == ProjectConnection { status: ProjectStatus::Online, last_seen: now, ..p }
                    }
                } else {
                    q == p
                }
            },
            final(self).spec_total_forwarded() == old(self).spec_total_forwarded(),
            final(self).spec_total_errors() == old(self).spec_total_errors(),
    {
        proof {
            use_type_invariant(&*self);
        }
        match position(&self.projects, name) {
            None => {
                assert forall|i: int| 0 <= i < old(self).records().len() implies old(self).records()[i].name@ != name@ by {
                    assert(!holds_name(old(self).records(), name@, i));
                }
            },
            Some(i) => {
                let mut v: Vec<ProjectConnection> = Vec::new();
                std::mem::swap(&mut v, &mut self.projects);
                let ghost before = v@;
                let mut p = v.remove(i);
                if online {
                    p.status = ProjectStatus::Online;
                    p.last_seen = now;
                    if routed {
                        p.total_routed = p.total_routed + 1;
                    }
                } else {
                    p.status = ProjectStatus::Offline;
                }
                v.insert(i, p);
                proof {
                    assert(v@ =~= before.update(i as int, v@[i as int]));
                    assert forall|j: int| 0 <= j < v@.len() implies #[trigger] v@[j].name@ == before[j].name@ by {}
                    assert forall|j: int| 0 <= j < before.len() && j != i implies before[j].name@ != name@ by {
                        if j < i {
                            assert(before[j].name@ != before[i as int].name@);
                        } else {
                            assert(before[i as int].name@ != before[j].name@);
                        }
                    }
                }
                self.projects = v;
            },
        }
    }

    /// Counts a forward that failed.
    pub fn record_error(&mut self)
        ensures
            final(self).records() == old(self).records(),
            final(self).spec_total_forwarded() == old(self).spec_total_forwarded(),
            final(self).spec_total_errors() == (old(self).spec_total_errors() + 1) as u64 || (
                old(self).spec_total_errors() == u64::MAX && final(self).spec_total_errors() == 0),
    {
        proof {
            use_type_invariant(&*self);
        }
        self.total_errors = self.total_errors.wrapping_add(1);
    }

    /// The number of forwards that succeeded.
    pub fn total_forwarded(&self) -> (r: u64)
        ensures
            r == self.spec_total_forwarded(),
    {
        self.total_forwarded
    }

    /// The number of forwards that failed.
    pub fn total_errors(&self) -> (r: u64)
        ensures
            r == self.spec_total_errors(),
    {
        self.total_errors
    }
}

/// Whether a broadcast for `capability` reaches the project `p`.
pub open spec fn reaches(p: ProjectConnection, capability: Option<Capability>) -> bool {
    match capability {
        None => true,
        Some(c) => p.capabilities@.contains(c),
    }
}

} // verus!
