//! The sealed secret store: secrets kept by identifier with their bytes,
//! sealed after writing and unsealed on access, rotated and deleted, with
//! counters and an audit trail. Times are milliseconds since the Unix epoch.

use vstd::prelude::*;
use crate::clock::unix_nanos;
use crate::text::{decimal, owned, push_decimal, push_str, str_eq};
use vstd::slice::slice_to_vec;

verus! {

/// The settings of the secret store.
#[derive(Debug, Clone)]
pub struct MemfdSecretConfig {
    pub enabled: bool,
    pub max_secrets: usize,
    pub max_secret_size: usize,
    pub seal_before_use: bool,
    pub seal_after_write: bool,
    pub prohibit_ptrace: bool,
    pub prohibit_exec: bool,
    pub mlock_enabled: bool,
    pub auto_seal_interval_secs: u64,
    pub encryption_algorithm: String,
    pub key_derivation: String,
    pub audit_enabled: bool,
    pub rotation_interval_secs: u64,
}

impl Default for MemfdSecretConfig {
    /// Enabled, ten thousand secrets of up to 10 MiB, sealed after writing
    /// and before use, tracing and execution prohibited, memory locked,
    /// sealed every five minutes, AES-256-GCM with Argon2id, audited,
    /// rotated daily.
    fn default() -> (r: MemfdSecretConfig)
        ensures
            r.enabled,
            r.max_secrets == 10_000,
            r.max_secret_size == 10 * 1024 * 1024,
            r.seal_before_use,
            r.seal_after_write,
            r.prohibit_ptrace,
            r.prohibit_exec,
            r.mlock_enabled,
            r.auto_seal_interval_secs == 300,
            r.encryption_algorithm@ == "AES-256-GCM"@,
            r.key_derivation@ == "Argon2id"@,
            r.audit_enabled,
            r.rotation_interval_secs == 86400,
    {
        MemfdSecretConfig {
            enabled: true,
            max_secrets: 10_000,
            max_secret_size: 10 * 1024 * 1024,
            seal_before_use: true,
            seal_after_write: true,
            prohibit_ptrace: true,
            prohibit_exec: true,
            mlock_enabled: true,
            auto_seal_interval_secs: 300,
            encryption_algorithm: owned("AES-256-GCM"),
            key_derivation: owned("Argon2id"),
            audit_enabled: true,
            rotation_interval_secs: 86400,
        }
    }
}

/// What the store knows of one secret besides its bytes.
#[derive(Debug, Clone)]
pub struct SecretEntry {
    pub id: String,
    pub namespace: String,
    pub key_id: String,
    pub size_bytes: usize,
    pub created_at: i64,
    pub last_accessed: i64,
    pub access_count: u64,
    pub sealed: bool,
    pub algorithm: String,
    pub version: u32,
    pub rotation_due: Option<i64>,
    pub metadata: Vec<(String, String)>,
}

/// The counters of the store.
#[derive(Debug, Clone, Copy)]
pub struct MemfdStats {
    pub total_secrets: usize,
    pub total_bytes: usize,
    pub sealed_count: usize,
    pub unsealed_count: usize,
    pub total_accesses: u64,
    pub seal_operations: u64,
    pub unseal_operations: u64,
    pub ptrace_blocks: u64,
    pub rotation_operations: u64,
    pub encryption_operations: u64,
    pub decryption_operations: u64,
    pub audit_log_size: usize,
    pub memory_usage_bytes: usize,
}

/// One line of the audit trail.
#[derive(Debug, Clone)]
pub struct AuditEntry {
    pub id: String,
    pub secret_id: String,
    pub operation: String,
    pub timestamp: i64,
    pub success: bool,
    pub details: String,
}

/// All counters at zero.
pub open spec fn zero_stats() -> MemfdStats {
    MemfdStats {
        total_secrets: 0,
        total_bytes: 0,
        sealed_count: 0,
        unsealed_count: 0,
        total_accesses: 0,
        seal_operations: 0,
        unseal_operations: 0,
        ptrace_blocks: 0,
        rotation_operations: 0,
        encryption_operations: 0,
        decryption_operations: 0,
        audit_log_size: 0,
        memory_usage_bytes: 0,
    }
}

impl SecretEntry {
    /// A copy with the same fields.
    pub fn duplicate(&self) -> (r: SecretEntry)
        ensures
            r.id == self.id && r.namespace == self.namespace && r.key_id == self.key_id
                && r.size_bytes == self.size_bytes && r.created_at == self.created_at
                && r.last_accessed == self.last_accessed && r.access_count == self.access_count
                && r.sealed == self.sealed && r.algorithm == self.algorithm && r.version == self.version
                && r.rotation_due == self.rotation_due && r.metadata@ == self.metadata@,
    {
        let mut meta: Vec<(String, String)> = Vec::new();
        let mut i: usize = 0;
        while i < self.metadata.len()
            invariant
                i <= self.metadata@.len(),
                meta@ == self.metadata@.take(i as int),
            decreases self.metadata@.len() - i,
        {
            let pair = (self.metadata[i].0.clone(), self.metadata[i].1.clone());
            meta.push(pair);
            assert(meta@ =~= self.metadata@.take(i + 1));
            i = i + 1;
        }
        assert(meta@ =~= self.metadata@);
        SecretEntry {
            id: self.id.clone(),
            namespace: self.namespace.clone(),
            key_id: self.key_id.clone(),
            size_bytes: self.size_bytes,
            created_at: self.created_at,
            last_accessed: self.last_accessed,
            access_count: self.access_count,
            sealed: self.sealed,
            algorithm: self.algorithm.clone(),
            version: self.version,
            rotation_due: self.rotation_due,
            metadata: meta,
        }
    }
}

/// Whether the entry at index `i` of `s` has the identifier `id`.
pub open spec fn secret_at(s: Seq<SecretEntry>, id: Seq<char>, i: int) -> bool {
    0 <= i < s.len() && s[i].id@ == id
}

/// Whether some entry of `s` has the identifier `id`.
pub open spec fn has_secret(s: Seq<SecretEntry>, id: Seq<char>) -> bool {
    exists|i: int| secret_at(s, id, i)
}

/// Whether no two entries of `s` share an identifier.
pub open spec fn secrets_unique(s: Seq<SecretEntry>) -> bool {
    forall|i: int, j: int| 0 <= i < j < s.len() ==> s[i].id@ != s[j].id@
}

/// The index of the entry with identifier `id` (meaningful when there is
/// one).
pub open spec fn secret_index(s: Seq<SecretEntry>, id: Seq<char>) -> int {
    choose|i: int| secret_at(s, id, i)
}

/// With identifiers unique, an index holding an identifier is its index.
pub proof fn lemma_secret_index(s: Seq<SecretEntry>, id: Seq<char>, i: int)
    requires
        secrets_unique(s),
        secret_at(s, id, i),
    ensures
        secret_index(s, id) == i,
{
    let k = choose|k: int| secret_at(s, id, k);
    assert(secret_at(s, id, k));
    if k != i {
        if k < i {
            assert(s[k].id@ != s[i].id@);
        } else {
            assert(s[i].id@ != s[k].id@);
        }
    }
}

/// A secret and its bytes.
#[derive(Debug, Clone)]
pub struct SecretRecord {
    pub entry: SecretEntry,
    pub data: Vec<u8>,
}

/// The entries of a list of records.
pub open spec fn entries_of(s: Seq<SecretRecord>) -> Seq<SecretEntry> {
    s.map_values(|r: SecretRecord| r.entry)
}

/// The bytes of a list of records.
pub open spec fn contents_of(s: Seq<SecretRecord>) -> Seq<Seq<u8>> {
    s.map_values(|r: SecretRecord| r.data@)
}

/// The index of the record with identifier `id`, if any.
fn secret_position(v: &Vec<SecretRecord>, id: &str) -> (r: Option<usize>)
    ensures
        match r {
            Some(i) => secret_at(entries_of(v@), id@, i as int),
            None => !has_secret(entries_of(v@), id@),
        },
{
    let mut i: usize = 0;
    while i < v.len()
        invariant
            i <= v@.len(),
            forall|j: int| 0 <= j < i ==> v@[j].entry.id@ != id@,
        decreases v@.len() - i,
    {
        if str_eq(v[i].entry.id.as_str(), id) {
            return Some(i);
        }
        i = i + 1;
    }
    assert forall|j: int| !secret_at(entries_of(v@), id@, j) by {}
    None
}

/// `Uuid::new_v4().to_string()`: a fresh random identifier; nothing is
/// promised of it.
#[verifier::external_body]
fn new_uuid() -> (r: String) {
    uuid::Uuid::new_v4().to_string()
}

/// The wall clock in milliseconds since the Unix epoch.
fn unix_millis() -> (r: i64)
    ensures
        0 <= r <= 18_446_744_073_709,
{
    (unix_nanos() / 1_000_000) as i64
}


/// The entry of `s` with the identifier `id` (meaningful when there is one).
pub open spec fn entry_of(s: Seq<SecretEntry>, id: Seq<char>) -> SecretEntry {
    s[secret_index(s, id)]
}

/// The bytes kept beside the entry with the identifier `id`.
pub open spec fn bytes_of(s: Seq<SecretEntry>, d: Seq<Seq<u8>>, id: Seq<char>) -> Seq<u8> {
    d[secret_index(s, id)]
}

/// Whether every identifier other than `id` finds the same entry and bytes
/// in both stores.
pub open spec fn others_kept(
    e2: Seq<SecretEntry>,
    d2: Seq<Seq<u8>>,
    e1: Seq<SecretEntry>,
    d1: Seq<Seq<u8>>,
    id: Seq<char>,
) -> bool {
    forall|n: Seq<char>| n != id ==> {
        &&& (has_secret(e2, n) <==> has_secret(e1, n))
        &&& has_secret(e1, n) ==> entry_of(e2, n) == entry_of(e1, n) && bytes_of(e2, d2, n) == bytes_of(e1, d1, n)
    }
}

/// Whether the counters have room for storing `len` more bytes.
pub open spec fn can_store(s: MemfdStats, len: nat) -> bool {
    &&& s.total_secrets < usize::MAX
    &&& s.total_bytes + len <= usize::MAX
    &&& s.memory_usage_bytes + len <= usize::MAX
    &&& s.sealed_count < usize::MAX
    &&& s.seal_operations < u64::MAX
    &&& s.audit_log_size < usize::MAX
}

/// Whether `e` is the entry of a secret stored at `now`.
pub open spec fn is_new_entry(
    e: SecretEntry,
    id: Seq<char>,
    namespace: Seq<char>,
    key_id: Seq<char>,
    size: nat,
    now: i64,
    sealed: bool,
    algorithm: Seq<char>,
    due: Option<i64>,
) -> bool {
    &&& e.id@ == id
    &&& e.namespace@ == namespace
    &&& e.key_id@ == key_id
    &&& e.size_bytes == size
    &&& e.created_at == now
    &&& e.last_accessed == now
    &&& e.access_count == 0
    &&& e.sealed == sealed
    &&& e.algorithm@ == algorithm
    &&& e.version == 1
    &&& e.rotation_due == due
    &&& e.metadata@.len() == 0
}

/// The first rotation of a secret stored at `now`: one rotation interval
/// later, or none when rotation is off.
pub open spec fn first_rotation(config: MemfdSecretConfig, now: i64) -> Option<i64> {
    if config.rotation_interval_secs > 0 {
        Some((now + config.rotation_interval_secs * 1000) as i64)
    } else {
        None
    }
}

/// Whether `a` is the audit line of an operation.
pub open spec fn is_audit(a: AuditEntry, audit_id: Seq<char>, secret_id: Seq<char>, operation: Seq<char>, now: i64, details: Seq<char>) -> bool {
    &&& a.id@ == audit_id
    &&& a.secret_id@ == secret_id
    &&& a.operation@ == operation
    &&& a.timestamp == now
    &&& a.success
    &&& a.details@ == details
}

/// Replacing the entry and bytes at an index, under the same identifier,
/// keeps identifiers unique and what other identifiers find.
proof fn lemma_replace_secret(
    e1: Seq<SecretEntry>,
    d1: Seq<Seq<u8>>,
    e2: Seq<SecretEntry>,
    d2: Seq<Seq<u8>>,
    i: int,
)
    requires
        secrets_unique(e1),
        e1.len() == d1.len(),
        0 <= i < e1.len(),
        e2.len() == e1.len(),
        d2.len() == d1.len(),
        e2[i].id@ == e1[i].id@,
        forall|j: int| 0 <= j < e1.len() && j != i ==> e2[j] == e1[j] && d2[j] == d1[j],
    ensures
        secrets_unique(e2),
        secret_index(e2, e1[i].id@) == i,
        others_kept(e2, d2, e1, d1, e1[i].id@),
{
    assert forall|a: int, b: int| 0 <= a < b < e2.len() implies e2[a].id@ != e2[b].id@ by {
        assert(e2[a].id@ == e1[a].id@);
        assert(e2[b].id@ == e1[b].id@);
    }
    lemma_secret_index(e2, e1[i].id@, i);
    assert forall|n: Seq<char>| n != e1[i].id@ implies {
        &&& (has_secret(e2, n) <==> has_secret(e1, n))
        &&& has_secret(e1, n) ==> entry_of(e2, n) == entry_of(e1, n) && bytes_of(e2, d2, n) == bytes_of(e1, d1, n)
    } by {
        if has_secret(e1, n) {
            let j = choose|j: int| secret_at(e1, n, j);
            assert(j != i);
            lemma_secret_index(e1, n, j);
            assert(secret_at(e2, n, j));
            lemma_secret_index(e2, n, j);
        }
        if has_secret(e2, n) {
            let j = choose|j: int| secret_at(e2, n, j);
            assert(j != i);
            assert(secret_at(e1, n, j));
        }
    }
}

/// The number of unsealed entries among the first `n`.
pub open spec fn unsealed_upto(s: Seq<SecretEntry>, n: int) -> nat
    decreases n,
{
    if n <= 0 {
        0
    } else {
        unsealed_upto(s, n - 1) + if !s[n - 1].sealed { 1nat } else { 0nat }
    }
}

/// Whether an entry's rotation is due at time `now`.
pub open spec fn is_due(e: SecretEntry, now: i64) -> bool {
    e.rotation_due matches Some(d) && now >= d
}

/// The number of entries due for rotation at `now` among the first `n`.
pub open spec fn due_upto(s: Seq<SecretEntry>, now: i64, n: int) -> nat
    decreases n,
{
    if n <= 0 {
        0
    } else {
        due_upto(s, now, n - 1) + if is_due(s[n - 1], now) { 1nat } else { 0nat }
    }
}

/// An entry after the rotation pass at `now`: when due, one version up and
/// due again a second later.
pub open spec fn rescheduled(e: SecretEntry, now: i64) -> SecretEntry {
    if is_due(e, now) {
        SecretEntry { version: (e.version + 1) as u32, rotation_due: Some((now + 1000) as i64), ..e }
    } else {
        e
    }
}

/// Whether two entries hold the same data.
pub open spec fn same_entry(a: SecretEntry, b: SecretEntry) -> bool {
    &&& a.id == b.id
    &&& a.namespace == b.namespace
    &&& a.key_id == b.key_id
    &&& a.size_bytes == b.size_bytes
    &&& a.created_at == b.created_at
    &&& a.last_accessed == b.last_accessed
    &&& a.access_count == b.access_count
    &&& a.sealed == b.sealed
    &&& a.algorithm == b.algorithm
    &&& a.version == b.version
    &&& a.rotation_due == b.rotation_due
    &&& a.metadata@ == b.metadata@
}

/// Whether an entry belongs to the namespace asked for (any, when none is).
pub open spec fn in_namespace(e: SecretEntry, namespace: Option<Seq<char>>) -> bool {
    match namespace {
        None => true,
        Some(ns) => e.namespace@ == ns,
    }
}

/// The text of an optional namespace.
pub open spec fn namespace_view(n: Option<&str>) -> Option<Seq<char>> {
    match n {
        Some(t) => Some(t@),
        None => None,
    }
}

/// A change to one stored secret.
enum RecordChange {
    Access(i64),
    Seal,
    Rotate(i64, Vec<u8>),
    Reschedule(i64),
}

/// The entry after a change.
spec fn changed_entry(e: SecretEntry, c: RecordChange) -> SecretEntry {
    match c {
        RecordChange::Access(now) => SecretEntry { sealed: false, last_accessed: now, access_count: (e.access_count + 1) as u64, ..e },
        RecordChange::Seal => SecretEntry { sealed: true, ..e },
        RecordChange::Rotate(now, d) => SecretEntry {
            size_bytes: d@.len() as usize,
            version: (e.version + 1) as u32,
            rotation_due: Some((now + 86_400_000) as i64),
            ..e
        },
        RecordChange::Reschedule(now) => SecretEntry {
            version: (e.version + 1) as u32,
            rotation_due: Some((now + 1000) as i64),
            ..e
        },
    }
}

/// The bytes after a change.
spec fn changed_bytes(b: Seq<u8>, c: RecordChange) -> Seq<u8> {
    match c {
        RecordChange::Rotate(_, d) => d@,
        _ => b,
    }
}

/// The secret store: its settings, the secrets (one per identifier) with
/// their bytes, its counters, the audit trail (oldest first) and whether it
/// runs.
pub struct MemfdSecretStore {
    config: MemfdSecretConfig,
    records: Vec<SecretRecord>,
    stats: MemfdStats,
    audit_log: Vec<AuditEntry>,
    running: bool,
}

/// The store after `id` was stored at time `now` with the audit identifier
/// `audit_id`: the new entry and its bytes, every other secret as it was,
/// the counters moved on and, with audit on, one record more.
pub open spec fn stored_as(
    before: MemfdSecretStore,
    after: MemfdSecretStore,
    id: Seq<char>,
    namespace: Seq<char>,
    key_id: Seq<char>,
    data: Seq<u8>,
    algorithm: Seq<char>,
    now: i64,
    audit_id: Seq<char>,
) -> bool {
    let cfg = before.config();
    let st = before.stats();
    let len = data.len();
    &&& has_secret(after.entries(), id)
    &&& is_new_entry(entry_of(after.entries(), id), id, namespace, key_id, len, now,
        cfg.seal_after_write, algorithm, first_rotation(cfg, now))
    &&& bytes_of(after.entries(), after.contents(), id) == data
    &&& others_kept(after.entries(), after.contents(), before.entries(), before.contents(), id)
    &&& after.stats() == (MemfdStats {
        total_secrets: (st.total_secrets + 1) as usize,
        total_bytes: (st.total_bytes + len) as usize,
        memory_usage_bytes: (st.memory_usage_bytes + len) as usize,
        sealed_count: if cfg.seal_after_write { (st.sealed_count + 1) as usize } else { st.sealed_count },
        seal_operations: if cfg.seal_after_write { (st.seal_operations + 1) as u64 } else { st.seal_operations },
        audit_log_size: if cfg.audit_enabled { (st.audit_log_size + 1) as usize } else { st.audit_log_size },
        ..st
    })
    &&& if cfg.audit_enabled {
        &&& after.audit().len() == before.audit().len() + 1
        &&& after.audit().drop_last() == before.audit()
        &&& is_audit(after.audit().last(), audit_id, id, "store"@, now,
            "stored "@ + decimal(len) + " bytes with "@ + algorithm)
    } else {
        after.audit() == before.audit()
    }
}

impl MemfdSecretStore {
    #[verifier::type_invariant]
    closed spec fn inv(&self) -> bool {
        secrets_unique(entries_of(self.records@))
    }

    /// The settings.
    pub closed spec fn config(&self) -> MemfdSecretConfig {
        self.config
    }

    /// The entries.
    pub closed spec fn entries(&self) -> Seq<SecretEntry> {
        entries_of(self.records@)
    }

    /// The bytes of each entry, in the same order.
    pub closed spec fn contents(&self) -> Seq<Seq<u8>> {
        contents_of(self.records@)
    }

    /// The counters.
    pub closed spec fn stats(&self) -> MemfdStats {
        self.stats
    }

    /// The audit trail, oldest first.
    pub closed spec fn audit(&self) -> Seq<AuditEntry> {
        self.audit_log@
    }

    /// Whether the store runs.
    pub closed spec fn spec_running(&self) -> bool {
        self.running
    }

    /// An empty, stopped store with the given settings.
    pub fn new(config: MemfdSecretConfig) -> (r: MemfdSecretStore)
        ensures
            r.config() == config,
            r.entries().len() == 0,
            r.audit().len() == 0,
            r.stats() == zero_stats(),
            !r.spec_running(),
    {
        MemfdSecretStore {
            config: config,
            records: Vec::new(),
            stats: MemfdStats {
                total_secrets: 0,
                total_bytes: 0,
                sealed_count: 0,
                unsealed_count: 0,
                total_accesses: 0,
                seal_operations: 0,
                unseal_operations: 0,
                ptrace_blocks: 0,
                rotation_operations: 0,
                encryption_operations: 0,
                decryption_operations: 0,
                audit_log_size: 0,
                memory_usage_bytes: 0,
            },
            audit_log: Vec::new(),
            running: false,
        }
    }

    /// Stores a secret at time `now`, unless the store is disabled, full,
    /// or the secret larger than allowed. A secret with the same identifier
    /// is replaced (the counters count it again). With sealing after write
    /// on the secret is stored sealed; with audit on, the store is recorded.
    pub fn store_secret_at(
        &mut self,
        id: &str,
        namespace: &str,
        key_id: &str,
        data_bytes: Vec<u8>,
        algorithm: &str,
        now: i64,
        audit_id: &str,
    ) -> (r: Result<(), String>)
        requires
            can_store(old(self).stats(), data_bytes@.len()),
            old(self).config().rotation_interval_secs * 1000 <= i64::MAX,
            old(self).config().rotation_interval_secs > 0 ==> now + old(self).config().rotation_interval_secs * 1000 <= i64::MAX,
        ensures
            final(self).config() == old(self).config(),
            final(self).spec_running() == old(self).spec_running(),
            !old(self).config().enabled ==> (r matches Err(m) && m@ == "store disabled"@) && *final(self) == *old(self),
            old(self).config().enabled && old(self).entries().len() >= old(self).config().max_secrets
                ==> (r matches Err(m) && m@ == "secret store full"@) && *final(self) == *old(self),
            old(self).config().enabled && old(self).entries().len() < old(self).config().max_secrets
                && data_bytes@.len() > old(self).config().max_secret_size
                ==> (r matches Err(m) && m@ == "secret too large"@) && *final(self) == *old(self),
            old(self).config().enabled && old(self).entries().len() < old(self).config().max_secrets
                && data_bytes@.len() <= old(self).config().max_secret_size ==> {
                &&& r is Ok
                &&& stored_as(*old(self), *final(self), id@, namespace@, key_id@, data_bytes@, algorithm@, now, audit_id@)
            },
    {
        proof {
            use_type_invariant(&*self);
        }
        if !self.config.enabled {
            return Err(owned("store disabled"));
        }
        if self.records.len() >= self.config.max_secrets {
            return Err(owned("secret store full"));
        }
        let len = data_bytes.len();
        if len > self.config.max_secret_size {
            return Err(owned("secret too large"));
        }
        let due: Option<i64> = if self.config.rotation_interval_secs > 0 {
            Some(now + (self.config.rotation_interval_secs * 1000) as i64)
        } else {
            None
        };
        let entry = SecretEntry {
            id: owned(id),
            namespace: owned(namespace),
            key_id: owned(key_id),
            size_bytes: len,
            created_at: now,
            last_accessed: now,
            access_count: 0,
            sealed: self.config.seal_after_write,
            algorithm: owned(algorithm),
            version: 1,
            rotation_due: due,
            metadata: Vec::new(),
        };
        let record = SecretRecord { entry: entry, data: data_bytes };
        let mut rs: Vec<SecretRecord> = Vec::new();
        std::mem::swap(&mut rs, &mut self.records);
        let ghost r1 = rs@;
        let ghost e1 = entries_of(rs@);
        let ghost d1 = contents_of(rs@);
        let ghost bytes = record.data@;
        match secret_position(&rs, id) {
            Some(i) => {
                let _replaced = rs.remove(i);
                rs.insert(i, record);
                proof {
                    assert(rs@ =~= r1.update(i as int, rs@[i as int]));
                    let e2 = entries_of(rs@);
                    let d2 = contents_of(rs@);
                    assert forall|j: int| 0 <= j < e1.len() && j != i implies e2[j] == e1[j] && d2[j] == d1[j] by {}
                    lemma_replace_secret(e1, d1, e2, d2, i as int);
                    assert(d2[i as int] == bytes);
                    assert(secret_at(e2, id@, i as int));
                    assert(has_secret(e2, id@));
                }
            },
            None => {
                rs.push(record);
                proof {
                    let e2 = entries_of(rs@);
                    let d2 = contents_of(rs@);
                    let k = e1.len() as int;
                    assert forall|a: int, b: int| 0 <= a < b < e2.len() implies e2[a].id@ != e2[b].id@ by {
                        if b == k {
                            assert(!secret_at(e1, id@, a));
                        } else {
                            assert(e2[a] == e1[a] && e2[b] == e1[b]);
                        }
                    }
                    assert(secret_at(e2, id@, k));
                    assert(has_secret(e2, id@));
                    lemma_secret_index(e2, id@, k);
                    assert(d2[k] == bytes);
                    assert forall|n: Seq<char>| n != id@ implies {
                        &&& (has_secret(e2, n) <==> has_secret(e1, n))
                        &&& has_secret(e1, n) ==> entry_of(e2, n) == entry_of(e1, n) && bytes_of(e2, d2, n) == bytes_of(e1, d1, n)
                    } by {
                        if has_secret(e1, n) {
                            let j = choose|j: int| secret_at(e1, n, j);
                            lemma_secret_index(e1, n, j);
                            assert(e2[j] == e1[j]);
                            assert(secret_at(e2, n, j));
                            lemma_secret_index(e2, n, j);
                            assert(d2[j] == d1[j]);
                        }
                        if has_secret(e2, n) {
                            let j = choose|j: int| secret_at(e2, n, j);
                            assert(j != k);
                            assert(e2[j] == e1[j]);
                            assert(secret_at(e1, n, j));
                        }
                    }
                }
            },
        }
        self.records = rs;
        self.stats.total_secrets = self.stats.total_secrets + 1;
        self.stats.total_bytes = self.stats.total_bytes + len;
        self.stats.memory_usage_bytes = self.stats.memory_usage_bytes + len;
        if self.config.seal_after_write {
            self.stats.sealed_count = self.stats.sealed_count + 1;
            self.stats.seal_operations = self.stats.seal_operations + 1;
        }
        if self.config.audit_enabled {
            let mut details = owned("stored ");
            push_decimal(&mut details, len as u64);
            push_str(&mut details, " bytes with ");
            push_str(&mut details, algorithm);
            let mut log: Vec<AuditEntry> = Vec::new();
            std::mem::swap(&mut log, &mut self.audit_log);
            log.push(AuditEntry {
                id: owned(audit_id),
                secret_id: owned(id),
                operation: owned("store"),
                timestamp: now,
                success: true,
                details: details,
            });
            proof {
                assert(log@.drop_last() =~= old(self).audit_log@);
            }
            self.audit_log = log;
            self.stats.audit_log_size = self.stats.audit_log_size + 1;
        }
        Ok(())
    }

    /// Changes the record at index `i` in place.
    fn change_record(&mut self, i: usize, c: RecordChange)
        requires
            i < old(self).entries().len(),
            c matches RecordChange::Access(_) ==> old(self).entries()[i as int].access_count < u64::MAX,
            c matches RecordChange::Rotate(now, _) ==> old(self).entries()[i as int].version < u32::MAX && now + 86_400_000 <= i64::MAX,
            c matches RecordChange::Reschedule(now) ==> old(self).entries()[i as int].version < u32::MAX && now + 1000 <= i64::MAX,
        ensures
            final(self).config() == old(self).config(),
            final(self).stats() == old(self).stats(),
            final(self).audit() == old(self).audit(),
            final(self).spec_running() == old(self).spec_running(),
            final(self).entries().len() == old(self).entries().len(),
            secret_at(final(self).entries(), old(self).entries()[i as int].id@, i as int),
            secret_index(final(self).entries(), old(self).entries()[i as int].id@) == i,
            final(self).entries()[i as int] == changed_entry(old(self).entries()[i as int], c),
            final(self).contents()[i as int] == changed_bytes(old(self).contents()[i as int], c),
            forall|j: int| 0 <= j < old(self).entries().len() && j != i ==> final(self).entries()[j] == old(self).entries()[j]
                && final(self).contents()[j] == old(self).contents()[j],
            others_kept(final(self).entries(), final(self).contents(), old(self).entries(), old(self).contents(), old(self).entries()[i as int].id@),
    {
        proof {
            use_type_invariant(&*self);
        }
        let mut rs: Vec<SecretRecord> = Vec::new();
        std::mem::swap(&mut rs, &mut self.records);
        let ghost r1 = rs@;
        let mut rec = rs.remove(i);
        match c {
            RecordChange::Access(now) => {
                rec.entry.sealed = false;
                rec.entry.last_accessed = now;
                rec.entry.access_count = rec.entry.access_count + 1;
            },
            RecordChange::Seal => {
                rec.entry.sealed = true;
            },
            RecordChange::Rotate(now, data) => {
                rec.entry.size_bytes = data.len();
                rec.entry.version = rec.entry.version + 1;
                rec.entry.rotation_due = Some(now + 86_400_000);
                rec.data = data;
            },
            RecordChange::Reschedule(now) => {
                rec.entry.version = rec.entry.version + 1;
                rec.entry.rotation_due = Some(now + 1000);
            },
        }
        rs.insert(i, rec);
        proof {
            assert(rs@ =~= r1.update(i as int, rs@[i as int]));
            let e1 = entries_of(r1);
            let d1 = contents_of(r1);
            let e2 = entries_of(rs@);
            let d2 = contents_of(rs@);
            assert forall|j: int| 0 <= j < e1.len() && j != i implies e2[j] == e1[j] && d2[j] == d1[j] by {}
            lemma_replace_secret(e1, d1, e2, d2, i as int);
        }
        self.records = rs;
    }

    /// Appends a line to the audit trail.
    fn push_audit(&mut self, line: AuditEntry)
        ensures
            final(self).config() == old(self).config(),
            final(self).entries() == old(self).entries(),
            final(self).contents() == old(self).contents(),
            final(self).stats() == old(self).stats(),
            final(self).spec_running() == old(self).spec_running(),
            final(self).audit() == old(self).audit().push(line),
    {
        proof {
            use_type_invariant(&*self);
        }
        let mut log: Vec<AuditEntry> = Vec::new();
        std::mem::swap(&mut log, &mut self.audit_log);
        log.push(line);
        self.audit_log = log;
    }

    /// Reads a secret at time `now`: a sealed secret is unsealed first;
    /// the access is counted and, with audit on, recorded. Its bytes are
    /// returned unchanged.
    pub fn access_secret_at(&mut self, id: &str, now: i64, audit_id: &str) -> (r: Result<Vec<u8>, String>)
        requires
            has_secret(old(self).entries(), id@) ==> {
                let e = entry_of(old(self).entries(), id@);
                let st = old(self).stats();
                &&& e.access_count < u64::MAX
                &&& st.total_accesses < u64::MAX
                &&& st.encryption_operations < u64::MAX
                &&& st.audit_log_size < usize::MAX
                &&& e.sealed ==> st.unseal_operations < u64::MAX && st.sealed_count > 0
                    && st.unsealed_count < usize::MAX && st.decryption_operations < u64::MAX
            },
        ensures
            final(self).config() == old(self).config(),
            final(self).spec_running() == old(self).spec_running(),
            !has_secret(old(self).entries(), id@) ==> (r matches Err(m) && m@ == "secret not found"@) && *final(self) == *old(self),
            has_secret(old(self).entries(), id@) ==> {
                let e = entry_of(old(self).entries(), id@);
                let st = old(self).stats();
                &&& r matches Ok(v) && v@ == bytes_of(old(self).entries(), old(self).contents(), id@)
                &&& has_secret(final(self).entries(), id@)
                &&& entry_of(final(self).entries(), id@) == SecretEntry {
                    sealed: false,
                    last_accessed: now,
                    access_count: (e.access_count + 1) as u64,
                    ..e
                }
                &&& bytes_of(final(self).entries(), final(self).contents(), id@) == bytes_of(old(self).entries(), old(self).contents(), id@)
                &&& others_kept(final(self).entries(), final(self).contents(), old(self).entries(), old(self).contents(), id@)
                &&& final(self).stats() == (MemfdStats {
                    unseal_operations: if e.sealed { (st.unseal_operations + 1) as u64 } else { st.unseal_operations },
                    sealed_count: if e.sealed { (st.sealed_count - 1) as usize } else { st.sealed_count },
                    unsealed_count: if e.sealed { (st.unsealed_count + 1) as usize } else { st.unsealed_count },
                    decryption_operations: if e.sealed { (st.decryption_operations + 1) as u64 } else { st.decryption_operations },
                    total_accesses: (st.total_accesses + 1) as u64,
                    encryption_operations: (st.encryption_operations + 1) as u64,
                    audit_log_size: if old(self).config().audit_enabled { (st.audit_log_size + 1) as usize } else { st.audit_log_size },
                    ..st
                })
                &&& if old(self).config().audit_enabled {
                    &&& final(self).audit().len() == old(self).audit().len() + 1
                    &&& final(self).audit().drop_last() == old(self).audit()
                    &&& is_audit(final(self).audit().last(), audit_id@, id@, "access"@, now,
                        "accessed, version="@ + decimal(e.version as nat))
                } else {
                    final(self).audit() == old(self).audit()
                }
            },
    {
        proof {
            use_type_invariant(&*self);
        }
        let i = match secret_position(&self.records, id) {
            None => return Err(owned("secret not found")),
            Some(i) => i,
        };
        proof {
            lemma_secret_index(self.entries(), id@, i as int);
        }
        let was_sealed = self.records[i].entry.sealed;
        let version = self.records[i].entry.version;
        let bytes = slice_to_vec(self.records[i].data.as_slice());
        self.change_record(i, RecordChange::Access(now));
        let mut st = self.stats;
        if was_sealed {
            st.unseal_operations = st.unseal_operations + 1;
            st.sealed_count = st.sealed_count - 1;
            st.unsealed_count = st.unsealed_count + 1;
            st.decryption_operations = st.decryption_operations + 1;
        }
        st.total_accesses = st.total_accesses + 1;
        st.encryption_operations = st.encryption_operations + 1;
        if self.config.audit_enabled {
            let mut details = owned("accessed, version=");
            push_decimal(&mut details, version as u64);
            self.push_audit(AuditEntry {
                id: owned(audit_id),
                secret_id: owned(id),
                operation: owned("access"),
                timestamp: now,
                success: true,
                details: details,
            });
            st.audit_log_size = st.audit_log_size + 1;
        }
        self.set_stats(st);
        proof {
            assert(has_secret(self.entries(), id@));
        }
        Ok(bytes)
    }

    /// Seals a secret (again, if it was sealed already); the seal is
    /// counted.
    pub fn seal_secret(&mut self, id: &str) -> (r: Result<(), String>)
        requires
            has_secret(old(self).entries(), id@) ==> old(self).stats().seal_operations < u64::MAX
                && old(self).stats().sealed_count < usize::MAX && old(self).stats().unsealed_count > 0,
        ensures
            final(self).config() == old(self).config(),
            final(self).audit() == old(self).audit(),
            final(self).spec_running() == old(self).spec_running(),
            !has_secret(old(self).entries(), id@) ==> (r matches Err(m) && m@ == "secret not found"@) && *final(self) == *old(self),
            has_secret(old(self).entries(), id@) ==> {
                let e = entry_of(old(self).entries(), id@);
                let st = old(self).stats();
                &&& r is Ok
                &&& has_secret(final(self).entries(), id@)
                &&& entry_of(final(self).entries(), id@) == SecretEntry { sealed: true, ..e }
                &&& bytes_of(final(self).entries(), final(self).contents(), id@) == bytes_of(old(self).entries(), old(self).contents(), id@)
                &&& others_kept(final(self).entries(), final(self).contents(), old(self).entries(), old(self).contents(), id@)
                &&& final(self).stats() == (MemfdStats {
                    seal_operations: (st.seal_operations + 1) as u64,
                    sealed_count: (st.sealed_count + 1) as usize,
                    unsealed_count: (st.unsealed_count - 1) as usize,
                    ..st
                })
            },
    {
        proof {
            use_type_invariant(&*self);
        }
        let i = match secret_position(&self.records, id) {
            None => return Err(owned("secret not found")),
            Some(i) => i,
        };
        proof {
            lemma_secret_index(self.entries(), id@, i as int);
        }
        self.change_record(i, RecordChange::Seal);
        let mut st = self.stats;
        st.seal_operations = st.seal_operations + 1;
        st.sealed_count = st.sealed_count + 1;
        st.unsealed_count = st.unsealed_count - 1;
        self.set_stats(st);
        Ok(())
    }

    /// Replaces the bytes of a secret at time `now`: one version up, next
    /// rotation a day later; the byte total drops the old size (not below
    /// zero) and takes the new one.
    pub fn rotate_secret_at(&mut self, id: &str, new_data: Vec<u8>, now: i64) -> (r: Result<(), String>)
        requires
            has_secret(old(self).entries(), id@) ==> {
                let e = entry_of(old(self).entries(), id@);
                let st = old(self).stats();
                &&& e.version < u32::MAX
                &&& now + 86_400_000 <= i64::MAX
                &&& st.rotation_operations < u64::MAX
                &&& (if st.total_bytes >= e.size_bytes { st.total_bytes - e.size_bytes } else { 0 }) + new_data@.len() <= usize::MAX
            },
        ensures
            final(self).config() == old(self).config(),
            final(self).audit() == old(self).audit(),
            final(self).spec_running() == old(self).spec_running(),
            !has_secret(old(self).entries(), id@) ==> (r matches Err(m) && m@ == "secret not found"@) && *final(self) == *old(self),
            has_secret(old(self).entries(), id@) ==> {
                let e = entry_of(old(self).entries(), id@);
                let st = old(self).stats();
                &&& r is Ok
                &&& has_secret(final(self).entries(), id@)
                &&& entry_of(final(self).entries(), id@) == SecretEntry {
                    size_bytes: new_data@.len() as usize,
                    version: (e.version + 1) as u32,
                    rotation_due: Some((now + 86_400_000) as i64),
                    ..e
                }
                &&& bytes_of(final(self).entries(), final(self).contents(), id@) == new_data@
                &&& others_kept(final(self).entries(), final(self).contents(), old(self).entries(), old(self).contents(), id@)
                &&& final(self).stats() == (MemfdStats {
                    total_bytes: ((if st.total_bytes >= e.size_bytes { st.total_bytes - e.size_bytes } else { 0 }) + new_data@.len()) as usize,
                    rotation_operations: (st.rotation_operations + 1) as u64,
                    ..st
                })
            },
    {
        proof {
            use_type_invariant(&*self);
        }
        let i = match secret_position(&self.records, id) {
            None => return Err(owned("secret not found")),
            Some(i) => i,
        };
        proof {
            lemma_secret_index(self.entries(), id@, i as int);
        }
        let old_size = self.records[i].entry.size_bytes;
        let new_len = new_data.len();
        self.change_record(i, RecordChange::Rotate(now, new_data));
        let mut st = self.stats;
        st.total_bytes = st.total_bytes.saturating_sub(old_size) + new_len;
        st.rotation_operations = st.rotation_operations + 1;
        self.set_stats(st);
        Ok(())
    }

    /// Deletes a secret and its bytes; the counters drop it.
    pub fn delete_secret(&mut self, id: &str) -> (r: Result<(), String>)
        requires
            has_secret(old(self).entries(), id@) ==> {
                let e = entry_of(old(self).entries(), id@);
                let n = bytes_of(old(self).entries(), old(self).contents(), id@).len();
                let st = old(self).stats();
                &&& st.total_secrets >= 1
                &&& st.total_bytes >= n
                &&& st.memory_usage_bytes >= n
                &&& e.sealed ==> st.sealed_count >= 1
                &&& !e.sealed ==> st.unsealed_count >= 1
            },
        ensures
            final(self).config() == old(self).config(),
            final(self).audit() == old(self).audit(),
            final(self).spec_running() == old(self).spec_running(),
            !has_secret(old(self).entries(), id@) ==> (r matches Err(m) && m@ == "secret not found"@) && *final(self) == *old(self),
            has_secret(old(self).entries(), id@) ==> {
                let e = entry_of(old(self).entries(), id@);
                let n = bytes_of(old(self).entries(), old(self).contents(), id@).len();
                let st = old(self).stats();
                &&& r is Ok
                &&& !has_secret(final(self).entries(), id@)
                &&& final(self).entries().len() == old(self).entries().len() - 1
                &&& others_kept(final(self).entries(), final(self).contents(), old(self).entries(), old(self).contents(), id@)
                &&& final(self).stats() == (MemfdStats {
                    total_secrets: (st.total_secrets - 1) as usize,
                    total_bytes: (st.total_bytes - n) as usize,
                    memory_usage_bytes: (st.memory_usage_bytes - n) as usize,
                    sealed_count: if e.sealed { (st.sealed_count - 1) as usize } else { st.sealed_count },
                    unsealed_count: if e.sealed { st.unsealed_count } else { (st.unsealed_count - 1) as usize },
                    ..st
                })
            },
    {
        proof {
            use_type_invariant(&*self);
        }
        let i = match secret_position(&self.records, id) {
            None => return Err(owned("secret not found")),
            Some(i) => i,
        };
        proof {
            lemma_secret_index(self.entries(), id@, i as int);
        }
        let mut rs: Vec<SecretRecord> = Vec::new();
        std::mem::swap(&mut rs, &mut self.records);
        let ghost r1 = rs@;
        let gone = rs.remove(i);
        proof {
            let e1 = entries_of(r1);
            let d1 = contents_of(r1);
            let e2 = entries_of(rs@);
            let d2 = contents_of(rs@);
            let ii = i as int;
            assert forall|j: int| 0 <= j < e2.len() implies #[trigger] e2[j] == e1[if j < ii { j } else { j + 1 }]
                && d2[j] == d1[if j < ii { j } else { j + 1 }] by {}
            assert forall|a: int, b: int| 0 <= a < b < e2.len() implies e2[a].id@ != e2[b].id@ by {
                assert(e2[a] == e1[if a < ii { a } else { a + 1 }]);
                assert(e2[b] == e1[if b < ii { b } else { b + 1 }]);
            }
            assert forall|j: int| !secret_at(e2, id@, j) by {
                if 0 <= j < e2.len() {
                    let j0 = if j < ii { j } else { j + 1 };
                    assert(e2[j] == e1[j0]);
                    assert(j0 != ii);
                    if j0 < ii {
                        assert(e1[j0].id@ != e1[ii].id@);
                    } else {
                        assert(e1[ii].id@ != e1[j0].id@);
                    }
                }
            }
            assert forall|n: Seq<char>| n != id@ implies {
                &&& (has_secret(e2, n) <==> has_secret(e1, n))
                &&& has_secret(e1, n) ==> entry_of(e2, n) == entry_of(e1, n) && bytes_of(e2, d2, n) == bytes_of(e1, d1, n)
            } by {
                if has_secret(e1, n) {
                    let j = choose|j: int| secret_at(e1, n, j);
                    assert(j != ii);
                    let j2 = if j < ii { j } else { j - 1 };
                    assert(e2[j2] == e1[j]);
                    lemma_secret_index(e1, n, j);
                    assert(secret_at(e2, n, j2));
                    lemma_secret_index(e2, n, j2);
                }
                if has_secret(e2, n) {
                    let j = choose|j: int| secret_at(e2, n, j);
                    let j0 = if j < ii { j } else { j + 1 };
                    assert(e2[j] == e1[j0]);
                    assert(secret_at(e1, n, j0));
                }
            }
        }
        self.records = rs;
        let removed = gone.data.len();
        let mut st = self.stats;
        st.total_secrets = st.total_secrets - 1;
        st.total_bytes = st.total_bytes - removed;
        st.memory_usage_bytes = st.memory_usage_bytes - removed;
        if gone.entry.sealed {
            st.sealed_count = st.sealed_count - 1;
        } else {
            st.unsealed_count = st.unsealed_count - 1;
        }
        self.set_stats(st);
        Ok(())
    }

    /// Seals every unsealed secret, counting the seals: the periodic
    /// sealing pass.
    pub fn auto_seal_step(&mut self)
        requires
            old(self).stats().seal_operations + unsealed_upto(old(self).entries(), old(self).entries().len() as int) <= u64::MAX,
            old(self).stats().sealed_count + unsealed_upto(old(self).entries(), old(self).entries().len() as int) <= usize::MAX,
        ensures
            final(self).config() == old(self).config(),
            final(self).audit() == old(self).audit(),
            final(self).spec_running() == old(self).spec_running(),
            final(self).entries().len() == old(self).entries().len(),
            final(self).contents() == old(self).contents(),
            forall|j: int| 0 <= j < old(self).entries().len() ==> #[trigger] final(self).entries()[j]
                == (SecretEntry { sealed: true, ..old(self).entries()[j] }),
            ({
                let n = unsealed_upto(old(self).entries(), old(self).entries().len() as int);
                let st = old(self).stats();
                final(self).stats() == (MemfdStats {
                    seal_operations: (st.seal_operations + n) as u64,
                    sealed_count: (st.sealed_count + n) as usize,
                    unsealed_count: (if st.unsealed_count >= n { st.unsealed_count - n } else { 0 }) as usize,
                    ..st
                })
            }),
    {
        let ghost e0 = self.entries();
        let ghost d0 = self.contents();
        let mut sealed: usize = 0;
        let mut i: usize = 0;
        while i < self.records.len()
            invariant
                self.config() == old(self).config(),
                self.audit() == old(self).audit(),
                self.stats() == old(self).stats(),
                self.spec_running() == old(self).spec_running(),
                self.entries().len() == e0.len(),
                self.contents() == d0,
                e0 == old(self).entries(),
                i <= e0.len(),
                sealed == unsealed_upto(e0, i as int),
                sealed <= i,
                forall|j: int| 0 <= j < i ==> #[trigger] self.entries()[j] == (SecretEntry { sealed: true, ..e0[j] }),
                forall|j: int| i <= j < e0.len() ==> #[trigger] self.entries()[j] == e0[j],
            decreases e0.len() - i,
        {
            proof {
                use_type_invariant(&*self);
            }
            let was = self.records[i].entry.sealed;
            if !was {
                self.change_record(i, RecordChange::Seal);
                sealed = sealed + 1;
                proof {
                    assert(self.contents() =~= d0);
                }
            } else {
                proof {
                    assert(self.entries()[i as int] == (SecretEntry { sealed: true, ..e0[i as int] }));
                }
            }
            i = i + 1;
        }
        let mut st = self.stats;
        st.seal_operations = st.seal_operations + sealed as u64;
        st.sealed_count = st.sealed_count + sealed;
        st.unsealed_count = st.unsealed_count.saturating_sub(sealed);
        self.set_stats(st);
    }

    /// Moves on every secret whose rotation is due at time `now`: one
    /// version up, next rotation a second later (the time left before the
    /// old due time is never positive once it is due); the rotations are
    /// counted. The periodic rotation pass.
    pub fn rotation_step(&mut self, now: i64)
        requires
            now + 1000 <= i64::MAX,
            forall|j: int| 0 <= j < old(self).entries().len() && is_due(old(self).entries()[j], now)
                ==> #[trigger] old(self).entries()[j].version < u32::MAX,
            old(self).stats().rotation_operations + due_upto(old(self).entries(), now, old(self).entries().len() as int) <= u64::MAX,
        ensures
            final(self).config() == old(self).config(),
            final(self).audit() == old(self).audit(),
            final(self).spec_running() == old(self).spec_running(),
            final(self).entries().len() == old(self).entries().len(),
            final(self).contents() == old(self).contents(),
            forall|j: int| 0 <= j < old(self).entries().len() ==> #[trigger] final(self).entries()[j]
                == rescheduled(old(self).entries()[j], now),
            final(self).stats() == (MemfdStats {
                rotation_operations: (old(self).stats().rotation_operations + due_upto(old(self).entries(), now, old(self).entries().len() as int)) as u64,
                ..old(self).stats()
            }),
    {
        let ghost e0 = self.entries();
        let ghost d0 = self.contents();
        let mut rotated: u64 = 0;
        let mut i: usize = 0;
        while i < self.records.len()
            invariant
                self.config() == old(self).config(),
                self.audit() == old(self).audit(),
                self.stats() == old(self).stats(),
                self.spec_running() == old(self).spec_running(),
                self.entries().len() == e0.len(),
                self.contents() == d0,
                e0 == old(self).entries(),
                now + 1000 <= i64::MAX,
                forall|j: int| 0 <= j < e0.len() && is_due(e0[j], now) ==> #[trigger] e0[j].version < u32::MAX,
                i <= e0.len(),
                rotated == due_upto(e0, now, i as int),
                rotated <= i,
                forall|j: int| 0 <= j < i ==> #[trigger] self.entries()[j] == rescheduled(e0[j], now),
                forall|j: int| i <= j < e0.len() ==> #[trigger] self.entries()[j] == e0[j],
            decreases e0.len() - i,
        {
            proof {
                use_type_invariant(&*self);
            }
            let due = match self.records[i].entry.rotation_due {
                Some(d) => now >= d,
                None => false,
            };
            proof {
                assert(self.entries()[i as int] == self.records@[i as int].entry);
                assert(self.entries()[i as int] == e0[i as int]);
                assert(due == is_due(e0[i as int], now));
            }
            if due {
                self.change_record(i, RecordChange::Reschedule(now));
                rotated = rotated + 1;
                proof {
                    assert(self.contents() =~= d0);
                }
            }
            i = i + 1;
        }
        let mut st = self.stats;
        st.rotation_operations = st.rotation_operations + rotated;
        self.set_stats(st);
    }

    /// The counters.
    pub fn get_stats(&self) -> (r: MemfdStats)
        ensures
            r == self.stats(),
    {
        self.stats
    }

    /// Starts the store.
    pub fn start(&mut self) -> (r: Result<(), String>)
        ensures
            r is Ok,
            final(self).spec_running(),
            final(self).config() == old(self).config(),
            final(self).entries() == old(self).entries(),
            final(self).contents() == old(self).contents(),
            final(self).stats() == old(self).stats(),
            final(self).audit() == old(self).audit(),
    {
        proof {
            use_type_invariant(&*self);
        }
        self.running = true;
        Ok(())
    }

    /// Stops the store.
    pub fn stop(&mut self)
        ensures
            !final(self).spec_running(),
            final(self).config() == old(self).config(),
            final(self).entries() == old(self).entries(),
            final(self).contents() == old(self).contents(),
            final(self).stats() == old(self).stats(),
            final(self).audit() == old(self).audit(),
    {
        proof {
            use_type_invariant(&*self);
        }
        self.running = false;
    }

    /// Whether the store runs.
    pub fn is_running(&self) -> (r: bool)
        ensures
            r == self.spec_running(),
    {
        self.running
    }

    /// The number of secrets held.
    pub fn secret_count(&self) -> (r: usize)
        ensures
            r == self.entries().len(),
    {
        self.records.len()
    }

    /// The most recent audit lines, newest first, at most `limit` of them.
    pub fn get_audit_log(&self, limit: usize) -> (r: Vec<AuditEntry>)
        ensures
            r@.len() == if limit < self.audit().len() { limit as int } else { self.audit().len() as int },
            forall|j: int| 0 <= j < r@.len() ==> #[trigger] r@[j] == self.audit()[self.audit().len() - 1 - j],
    {
        let n = self.audit_log.len();
        let mut out: Vec<AuditEntry> = Vec::new();
        let mut k: usize = 0;
        while k < n && k < limit
            invariant
                n == self.audit_log@.len(),
                k <= n,
                k <= limit,
                out@.len() == k,
                forall|j: int| 0 <= j < k ==> #[trigger] out@[j] == self.audit_log@[n - 1 - j],
            decreases n - k,
        {
            let a = &self.audit_log[n - 1 - k];
            out.push(AuditEntry {
                id: a.id.clone(),
                secret_id: a.secret_id.clone(),
                operation: a.operation.clone(),
                timestamp: a.timestamp,
                success: a.success,
                details: a.details.clone(),
            });
            k = k + 1;
        }
        out
    }

    /// Copies of the entries of a namespace (all when none is given), in
    /// store order.
    pub fn list_secrets(&self, namespace: Option<&str>) -> (r: Vec<SecretEntry>)
        ensures
            r@.len() == self.entries().filter(|e: SecretEntry| in_namespace(e, namespace_view(namespace))).len(),
            forall|j: int| 0 <= j < r@.len() ==> same_entry(#[trigger] r@[j],
                self.entries().filter(|e: SecretEntry| in_namespace(e, namespace_view(namespace)))[j]),
    {
        let ghost es = self.entries();
        let ghost pred = |e: SecretEntry| in_namespace(e, namespace_view(namespace));
        let mut out: Vec<SecretEntry> = Vec::new();
        let mut i: usize = 0;
        while i < self.records.len()
            invariant
                es == self.entries(),
                es.len() == self.records@.len(),
                pred == (|e: SecretEntry| in_namespace(e, namespace_view(namespace))),
                i <= es.len(),
                out@.len() == es.take(i as int).filter(pred).len(),
                forall|j: int| 0 <= j < out@.len() ==> #[trigger] same_entry(out@[j], es.take(i as int).filter(pred)[j]),
            decreases es.len() - i,
        {
            let e = &self.records[i].entry;
            let take = match namespace {
                None => true,
                Some(ns) => str_eq(e.namespace.as_str(), ns),
            };
            let ghost out_before = out@;
            proof {
                assert(es[i as int] == self.records@[i as int].entry);
                assert(es.take(i + 1).drop_last() =~= es.take(i as int));
                assert(es.take(i + 1).last() == es[i as int]);
                reveal(Seq::filter);
                assert(pred(es[i as int]) == take);
            }
            if take {
                out.push(e.duplicate());
                proof {
                    let f = es.take(i + 1).filter(pred);
                    assert(f == es.take(i as int).filter(pred).push(es[i as int]));
                    assert forall|j: int| 0 <= j < out@.len() implies #[trigger] same_entry(out@[j], f[j]) by {
                        if j < out_before.len() {
                            assert(out@[j] == out_before[j]);
                        }
                    }
                }
            }
            i = i + 1;
        }
        proof {
            assert(es.take(es.len() as int) =~= es);
        }
        out
    }

    /// Stores a secret now, with a fresh audit identifier.
    pub fn store_secret(&mut self, id: &str, namespace: &str, key_id: &str, data_bytes: Vec<u8>, algorithm: &str) -> (r: Result<(), String>)
        requires
            can_store(old(self).stats(), data_bytes@.len()),
            old(self).config().rotation_interval_secs * 1000 <= i64::MAX - 18_446_744_073_709,
        ensures
            final(self).config() == old(self).config(),
            !old(self).config().enabled ==> (r matches Err(m) && m@ == "store disabled"@) && *final(self) == *old(self),
            old(self).config().enabled && old(self).entries().len() >= old(self).config().max_secrets
                ==> (r matches Err(m) && m@ == "secret store full"@) && *final(self) == *old(self),
            old(self).config().enabled && old(self).entries().len() < old(self).config().max_secrets
                && data_bytes@.len() > old(self).config().max_secret_size
                ==> (r matches Err(m) && m@ == "secret too large"@) && *final(self) == *old(self),
            old(self).config().enabled && old(self).entries().len() < old(self).config().max_secrets
                && data_bytes@.len() <= old(self).config().max_secret_size ==> {
                &&& r is Ok
                &&& exists|now: i64, audit_id: Seq<char>| 0 <= now <= 18_446_744_073_709
                    && #[trigger] stored_as(*old(self), *final(self), id@, namespace@, key_id@, data_bytes@, algorithm@, now, audit_id)
            },
    {
        let now = unix_millis();
        let audit_id = new_uuid();
        let ghost data = data_bytes@;
        let r = self.store_secret_at(id, namespace, key_id, data_bytes, algorithm, now, audit_id.as_str());
        proof {
            if r is Ok {
                assert(stored_as(*old(self), *self, id@, namespace@, key_id@, data, algorithm@, now, audit_id@));
            }
        }
        r
    }

    /// Reads a secret now.
    pub fn access_secret(&mut self, id: &str) -> (r: Result<Vec<u8>, String>)
        requires
            has_secret(old(self).entries(), id@) ==> {
                let e = entry_of(old(self).entries(), id@);
                let st = old(self).stats();
                &&& e.access_count < u64::MAX
                &&& st.total_accesses < u64::MAX
                &&& st.encryption_operations < u64::MAX
                &&& st.audit_log_size < usize::MAX
                &&& e.sealed ==> st.unseal_operations < u64::MAX && st.sealed_count > 0
                    && st.unsealed_count < usize::MAX && st.decryption_operations < u64::MAX
            },
        ensures
            !has_secret(old(self).entries(), id@) ==> (r matches Err(m) && m@ == "secret not found"@) && *final(self) == *old(self),
            has_secret(old(self).entries(), id@) ==> (r matches Ok(v) && v@ == bytes_of(old(self).entries(), old(self).contents(), id@))
                && !entry_of(final(self).entries(), id@).sealed
                && bytes_of(final(self).entries(), final(self).contents(), id@) == bytes_of(old(self).entries(), old(self).contents(), id@)
                && others_kept(final(self).entries(), final(self).contents(), old(self).entries(), old(self).contents(), id@),
    {
        let now = unix_millis();
        let audit_id = new_uuid();
        self.access_secret_at(id, now, audit_id.as_str())
    }

    /// Replaces the bytes of a secret now.
    pub fn rotate_secret(&mut self, id: &str, new_data: Vec<u8>) -> (r: Result<(), String>)
        requires
            has_secret(old(self).entries(), id@) ==> {
                let e = entry_of(old(self).entries(), id@);
                let st = old(self).stats();
                &&& e.version < u32::MAX
                &&& st.rotation_operations < u64::MAX
                &&& (if st.total_bytes >= e.size_bytes { st.total_bytes - e.size_bytes } else { 0 }) + new_data@.len() <= usize::MAX
            },
        ensures
            !has_secret(old(self).entries(), id@) ==> (r matches Err(m) && m@ == "secret not found"@) && *final(self) == *old(self),
            has_secret(old(self).entries(), id@) ==> r is Ok
                && entry_of(final(self).entries(), id@).version == entry_of(old(self).entries(), id@).version + 1
                && bytes_of(final(self).entries(), final(self).contents(), id@) == new_data@
                && others_kept(final(self).entries(), final(self).contents(), old(self).entries(), old(self).contents(), id@),
    {
        let now = unix_millis();
        self.rotate_secret_at(id, new_data, now)
    }

    /// Replaces the counters.
    fn set_stats(&mut self, st: MemfdStats)
        ensures
            final(self).config() == old(self).config(),
            final(self).entries() == old(self).entries(),
            final(self).contents() == old(self).contents(),
            final(self).audit() == old(self).audit(),
            final(self).spec_running() == old(self).spec_running(),
            final(self).stats() == st,
    {
        proof {
            use_type_invariant(&*self);
        }
        self.stats = st;
    }
}

} // verus!
