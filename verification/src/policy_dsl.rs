//! Compliance policies written in several source languages: their compiled
//! artefacts (content digests of the source), the decision an evaluation
//! gives, the statistics kept, and the registry that holds the policies and
//! their snapshots.

use vstd::prelude::*;
use vstd::string::*;
use vstd::utf8::encode_utf8;
use vstd::slice::slice_to_vec;
use crate::text::{copy_strings, hex_encode, hex_lower, owned, push_str, str_eq};
use crate::threshold_crypto::{concat2, sha256, sha256_spec};

verus! {

/// The settings of the policy compiler.
#[derive(Debug, Clone)]
pub struct PolicyConfig {
    pub max_policies: usize,
    pub wasm_target: String,
    pub compile_optimization: u32,
    pub enable_hot_reload: bool,
    pub snapshot_interval_secs: u64,
    pub max_wasm_size: usize,
    pub enable_aot: bool,
    pub sandbox_enabled: bool,
    pub gas_limit: u64,
    pub memory_limit: usize,
    pub fuel_limit: u64,
    pub enable_debug: bool,
}

impl Default for PolicyConfig {
    /// Ten thousand policies compiled for `wasm32-wasip1` at level 2, hot
    /// reload and ahead-of-time compilation on, a sandbox, 10 MiB of code,
    /// a million gas, 16 MiB of memory and ten million fuel.
    fn default() -> (r: PolicyConfig)
        ensures
            r.max_policies == 10_000,
            r.wasm_target@ == "wasm32-wasip1"@,
            r.compile_optimization == 2,
            r.enable_hot_reload,
            r.snapshot_interval_secs == 60,
            r.max_wasm_size == 10 * 1024 * 1024,
            r.enable_aot,
            r.sandbox_enabled,
            r.gas_limit == 1_000_000,
            r.memory_limit == 16 * 1024 * 1024,
            r.fuel_limit == 10_000_000,
            !r.enable_debug,
    {
        PolicyConfig {
            max_policies: 10_000,
            wasm_target: owned("wasm32-wasip1"),
            compile_optimization: 2,
            enable_hot_reload: true,
            snapshot_interval_secs: 60,
            max_wasm_size: 10 * 1024 * 1024,
            enable_aot: true,
            sandbox_enabled: true,
            gas_limit: 1_000_000,
            memory_limit: 16 * 1024 * 1024,
            fuel_limit: 10_000_000,
            enable_debug: false,
        }
    }
}

/// The language a policy is written in.
#[derive(Debug, Clone, Copy, PartialEq, Eq, Structural)]
pub enum PolicyLanguage {
    Rust,
    Rego,
    DSL,
    TypeScript,
    Python,
}

/// What an evaluated policy decides.
#[derive(Debug, Clone, Copy, PartialEq, Eq, Structural)]
pub enum PolicyDecision {
    Allow,
    Deny,
    RequireReview,
    Modify,
}

/// The tag mixed into the digest of a policy's compiled code, one per
/// language.
pub open spec fn language_tag(language: PolicyLanguage) -> Seq<u8> {
    match language {
        PolicyLanguage::Rust => "rust_wasm_v2".spec_bytes(),
        PolicyLanguage::Rego => "rego_wasm_v2".spec_bytes(),
        PolicyLanguage::DSL => "dsl_wasm_v2".spec_bytes(),
        PolicyLanguage::TypeScript => "ts_wasm_v1".spec_bytes(),
        PolicyLanguage::Python => "py_wasm_v1".spec_bytes(),
    }
}

/// The compiled code of a source: the SHA-256 of the source, then (for
/// Rust alone) the target, then the language's tag.
pub open spec fn spec_compiled_code(language: PolicyLanguage, source: Seq<u8>, target: Seq<u8>) -> Seq<u8> {
    if language is Rust {
        sha256_spec(source + target + language_tag(language))
    } else {
        sha256_spec(source + language_tag(language))
    }
}

/// The ahead-of-time artefact of compiled code: the SHA-256 of the code
/// followed by `aot_v1`.
pub open spec fn spec_aot_code(wasm: Seq<u8>) -> Seq<u8> {
    sha256_spec(wasm + "aot_v1".spec_bytes())
}

/// The tag of a language, as bytes.
fn tag_bytes(language: PolicyLanguage) -> (r: &'static [u8])
    ensures
        r@ == language_tag(language),
{
    match language {
        PolicyLanguage::Rust => "rust_wasm_v2".as_bytes(),
        PolicyLanguage::Rego => "rego_wasm_v2".as_bytes(),
        PolicyLanguage::DSL => "dsl_wasm_v2".as_bytes(),
        PolicyLanguage::TypeScript => "ts_wasm_v1".as_bytes(),
        PolicyLanguage::Python => "py_wasm_v1".as_bytes(),
    }
}

/// The compiled code of a policy source.
pub fn compiled_code(language: PolicyLanguage, source: &str, target: &str) -> (r: Vec<u8>)
    ensures
        r@ == spec_compiled_code(language, source.spec_bytes(), target.spec_bytes()),
        r@.len() == 32,
{
    let data = match language {
        PolicyLanguage::Rust => {
            let head = concat2(source.as_bytes(), target.as_bytes());
            concat2(head.as_slice(), tag_bytes(language))
        },
        _ => concat2(source.as_bytes(), tag_bytes(language)),
    };
    sha256(data.as_slice())
}

/// The ahead-of-time artefact of compiled code.
pub fn aot_code(wasm: &[u8]) -> (r: Vec<u8>)
    ensures
        r@ == spec_aot_code(wasm@),
        r@.len() == 32,
{
    let data = concat2(wasm, "aot_v1".as_bytes());
    sha256(data.as_slice())
}

/// The decision read from the first byte of a digest.
pub open spec fn decision_of_byte(b: u8) -> PolicyDecision {
    if b % 4 == 0 {
        PolicyDecision::Allow
    } else if b % 4 == 1 {
        PolicyDecision::Deny
    } else if b % 4 == 2 {
        PolicyDecision::RequireReview
    } else {
        PolicyDecision::Modify
    }
}

/// The decision of compiled code on an input: read from the first byte of
/// the SHA-256 of the code followed by the input.
pub open spec fn spec_decision(wasm: Seq<u8>, input: Seq<u8>) -> PolicyDecision {
    decision_of_byte(sha256_spec(wasm + input)[0])
}

/// The result of evaluating a policy.
#[derive(Debug, Clone)]
pub struct PolicyEvaluationResult {
    pub policy_id: String,
    pub decision: PolicyDecision,
    pub gas_used: u64,
    pub memory_used: usize,
    pub execution_time_ns: u64,
    pub logs: Vec<String>,
    pub error: Option<String>,
}

/// Runs compiled code on an input in the sandbox: the decision of the code
/// on the input, a quarter of the gas limit, half the memory limit, a
/// tenth of a millisecond and one log line.
pub fn execute_wasm(wasm: &[u8], input: &[u8], config: &PolicyConfig) -> (r: PolicyEvaluationResult)
    ensures
        r.policy_id@ == "simulated"@,
        r.decision == spec_decision(wasm@, input@),
        r.gas_used == config.gas_limit / 4,
        r.memory_used == config.memory_limit / 2,
        r.execution_time_ns == 100_000,
        r.logs@.len() == 1,
        r.logs@[0]@ == "WASM executed"@,
        r.error is None,
{
    let data = concat2(wasm, input);
    let hash = sha256(data.as_slice());
    let b = hash[0];
    let decision = if b % 4 == 0 {
        PolicyDecision::Allow
    } else if b % 4 == 1 {
        PolicyDecision::Deny
    } else if b % 4 == 2 {
        PolicyDecision::RequireReview
    } else {
        PolicyDecision::Modify
    };
    let mut logs: Vec<String> = Vec::new();
    logs.push(owned("WASM executed"));
    PolicyEvaluationResult {
        policy_id: owned("simulated"),
        decision: decision,
        gas_used: config.gas_limit / 4,
        memory_used: config.memory_limit / 2,
        execution_time_ns: 100_000,
        logs: logs,
        error: None,
    }
}

/// The counters of the policy compiler.
#[derive(Debug, Clone, Copy)]
pub struct PolicyStats {
    pub total_policies: usize,
    pub active_policies: usize,
    pub compiled_policies: usize,
    pub aot_compiled: usize,
    pub total_snapshots: u64,
    pub hot_reloads: u64,
    pub compilation_failures: u64,
    pub total_evaluations: u64,
    pub total_gas_used: u64,
    pub avg_evaluation_time_ns: u64,
}

impl PolicyStats {
    /// All counters at zero.
    pub fn zero() -> (r: PolicyStats)
        ensures
            r == (PolicyStats {
                total_policies: 0,
                active_policies: 0,
                compiled_policies: 0,
                aot_compiled: 0,
                total_snapshots: 0,
                hot_reloads: 0,
                compilation_failures: 0,
                total_evaluations: 0,
                total_gas_used: 0,
                avg_evaluation_time_ns: 0,
            }),
    {
        PolicyStats {
            total_policies: 0,
            active_policies: 0,
            compiled_policies: 0,
            aot_compiled: 0,
            total_snapshots: 0,
            hot_reloads: 0,
            compilation_failures: 0,
            total_evaluations: 0,
            total_gas_used: 0,
            avg_evaluation_time_ns: 0,
        }
    }

    /// Whether one more evaluation, using `gas` and taking `time_ns`, can
    /// be counted without overflow.
    pub open spec fn can_record(self, gas: u64, time_ns: u64) -> bool {
        &&& self.total_evaluations < u64::MAX
        &&& self.total_gas_used + gas <= u64::MAX
        &&& self.avg_evaluation_time_ns * self.total_evaluations + time_ns <= u64::MAX
    }

    /// The counters after one more evaluation that used `gas` and took
    /// `time_ns`: its gas is added and the running mean of the evaluation
    /// time moves to take it in (integer division).
    pub open spec fn after_evaluation(self, gas: u64, time_ns: u64) -> PolicyStats {
        PolicyStats {
            total_evaluations: (self.total_evaluations + 1) as u64,
            total_gas_used: (self.total_gas_used + gas) as u64,
            avg_evaluation_time_ns: ((self.avg_evaluation_time_ns * self.total_evaluations + time_ns)
                / (self.total_evaluations + 1)) as u64,
            ..self
        }
    }

    /// Counts one more evaluation.
    pub fn record_evaluation(&mut self, gas: u64, time_ns: u64)
        requires
            old(self).can_record(gas, time_ns),
        ensures
            *final(self) == old(self).after_evaluation(gas, time_ns),
    {
        let ghost a = old(self).avg_evaluation_time_ns as int;
        let ghost n0 = old(self).total_evaluations as int;
        self.total_evaluations = self.total_evaluations + 1;
        self.total_gas_used = self.total_gas_used + gas;
        let n = self.total_evaluations;
        let prev: u64 = self.avg_evaluation_time_ns * (n - 1);
        proof {
            assert((a * n0 + time_ns) / (n0 + 1) <= a * n0 + time_ns) by (nonlinear_arith)
                requires
                    a * n0 + time_ns >= 0,
                    n0 + 1 >= 1;
        }
        self.avg_evaluation_time_ns = (prev + time_ns) / n;
    }
}

/// A policy. Its timestamps are nanoseconds since the Unix epoch; its
/// metadata is a list of key and value pairs.
#[derive(Debug, Clone)]
pub struct Policy {
    pub policy_id: String,
    pub name: String,
    pub description: String,
    pub language: PolicyLanguage,
    pub source: String,
    pub compiled_wasm: Option<Vec<u8>>,
    pub aot_compiled: Option<Vec<u8>>,
    pub version: u32,
    pub created_at: i64,
    pub updated_at: i64,
    pub active: bool,
    pub direction: String,
    pub priority: u32,
    pub tags: Vec<String>,
    pub dependencies: Vec<String>,
    pub gas_used: u64,
    pub memory_used: usize,
    pub compile_time_ms: u64,
    pub metadata: Vec<(String, String)>,
}

/// The bytes of an optional artefact.
pub open spec fn opt_bytes(o: Option<Vec<u8>>) -> Option<Seq<u8>> {
    match o {
        Some(v) => Some(v@),
        None => None,
    }
}

/// A copy of an optional artefact.
fn copy_opt_bytes(o: &Option<Vec<u8>>) -> (r: Option<Vec<u8>>)
    ensures
        opt_bytes(r) == opt_bytes(*o),
{
    match o {
        Some(v) => Some(slice_to_vec(v.as_slice())),
        None => None,
    }
}

/// A copy of a list of key and value pairs.
fn copy_pairs(v: &Vec<(String, String)>) -> (r: Vec<(String, String)>)
    ensures
        r@ == v@,
{
    let mut out: Vec<(String, String)> = Vec::new();
    let mut i: usize = 0;
    while i < v.len()
        invariant
            i <= v@.len(),
            out@ == v@.take(i as int),
        decreases v@.len() - i,
    {
        let pair = (v[i].0.clone(), v[i].1.clone());
        out.push(pair);
        assert(out@ =~= v@.take(i + 1));
        i = i + 1;
    }
    assert(out@ =~= v@);
    out
}

impl Policy {
    /// Whether two policies hold the same data.
    pub open spec fn same_as(&self, o: &Policy) -> bool {
        &&& self.policy_id == o.policy_id
        &&& self.name == o.name
        &&& self.description == o.description
        &&& self.language == o.language
        &&& self.source == o.source
        &&& opt_bytes(self.compiled_wasm) == opt_bytes(o.compiled_wasm)
        &&& opt_bytes(self.aot_compiled) == opt_bytes(o.aot_compiled)
        &&& self.version == o.version
        &&& self.created_at == o.created_at
        &&& self.updated_at == o.updated_at
        &&& self.active == o.active
        &&& self.direction == o.direction
        &&& self.priority == o.priority
        &&& self.tags@ == o.tags@
        &&& self.dependencies@ == o.dependencies@
        &&& self.gas_used == o.gas_used
        &&& self.memory_used == o.memory_used
        &&& self.compile_time_ms == o.compile_time_ms
        &&& self.metadata@ == o.metadata@
    }

    /// A copy holding the same data.
    pub fn duplicate(&self) -> (r: Policy)
        ensures
            r.same_as(self),
    {
        Policy {
            policy_id: self.policy_id.clone(),
            name: self.name.clone(),
            description: self.description.clone(),
            language: self.language,
            source: self.source.clone(),
            compiled_wasm: copy_opt_bytes(&self.compiled_wasm),
            aot_compiled: copy_opt_bytes(&self.aot_compiled),
            version: self.version,
            created_at: self.created_at,
            updated_at: self.updated_at,
            active: self.active,
            direction: self.direction.clone(),
            priority: self.priority,
            tags: copy_strings(&self.tags),
            dependencies: copy_strings(&self.dependencies),
            gas_used: self.gas_used,
            memory_used: self.memory_used,
            compile_time_ms: self.compile_time_ms,
            metadata: copy_pairs(&self.metadata),
        }
    }
}

/// Whether compiling `p` under `config` fails: compiled Rust code (always
/// a 32-byte digest) is larger than the code size allowed.
pub open spec fn compile_fails(p: Policy, config: PolicyConfig) -> bool {
    p.language is Rust && config.max_wasm_size < 32
}

/// Whether `p2` is `p`, with its source replaced by `source`, compiled
/// under `config` at time `now` in `elapsed_ms`: its compiled code set from
/// that source; for Rust with ahead-of-time compilation on, its
/// ahead-of-time artefact set from that code (otherwise left as it was);
/// one version up; updated at `now`.
pub open spec fn is_compiled_from(p2: Policy, p: Policy, source: Seq<char>, config: PolicyConfig, now: i64, elapsed_ms: u64) -> bool {
    let code = spec_compiled_code(p.language, encode_utf8(source), encode_utf8(config.wasm_target@));
    &&& p2.policy_id@ == p.policy_id@
    &&& p2.name@ == p.name@
    &&& p2.description@ == p.description@
    &&& p2.language == p.language
    &&& p2.source@ == source
    &&& opt_bytes(p2.compiled_wasm) == Some(code)
    &&& opt_bytes(p2.aot_compiled) == if p.language is Rust && config.enable_aot {
        Some(spec_aot_code(code))
    } else {
        opt_bytes(p.aot_compiled)
    }
    &&& p2.version == p.version + 1
    &&& p2.created_at == p.created_at
    &&& p2.updated_at == now
    &&& p2.active == p.active
    &&& p2.direction@ == p.direction@
    &&& p2.priority == p.priority
    &&& p2.tags@ == p.tags@
    &&& p2.dependencies@ == p.dependencies@
    &&& p2.gas_used == p.gas_used
    &&& p2.memory_used == p.memory_used
    &&& p2.compile_time_ms == elapsed_ms
    &&& p2.metadata@ == p.metadata@
}

/// Whether `p2` is `p` compiled from its own source.
pub open spec fn is_compiled(p2: Policy, p: Policy, config: PolicyConfig, now: i64, elapsed_ms: u64) -> bool {
    is_compiled_from(p2, p, p.source@, config, now, elapsed_ms)
}

/// The counters after one compilation that produced `p2`.
pub open spec fn stats_after_compile(s: PolicyStats, p2: Policy) -> PolicyStats {
    PolicyStats {
        compiled_policies: (s.compiled_policies + 1) as usize,
        aot_compiled: if p2.aot_compiled is Some { (s.aot_compiled + 1) as usize } else { s.aot_compiled },
        ..s
    }
}

/// Whether the counters have room for one more compilation.
pub open spec fn can_compile(s: PolicyStats) -> bool {
    s.compiled_policies < usize::MAX && s.aot_compiled < usize::MAX
}

/// Compiles a policy under `config` at time `now` in `elapsed_ms`, from
/// the given source: the code is the digest of the source; Rust code larger
/// than allowed is refused; for Rust with ahead-of-time compilation on, the
/// ahead-of-time artefact is made from the code.
fn compile_with(mut policy: Policy, source: String, config: &PolicyConfig, now: i64, elapsed_ms: u64) -> (r: Result<Policy, String>)
    requires
        policy.version < u32::MAX,
    ensures
        compile_fails(policy, *config) ==> (r matches Err(e) && e@ == "WASM too large"@),
        !compile_fails(policy, *config) ==> (r matches Ok(p2) && is_compiled_from(p2, policy, source@, *config, now, elapsed_ms)),
{
    let ghost p0 = policy;
    let wasm = compiled_code(policy.language, source.as_str(), config.wasm_target.as_str());
    match policy.language {
        PolicyLanguage::Rust => {
            if wasm.len() > config.max_wasm_size {
                return Err(owned("WASM too large"));
            }
            if config.enable_aot {
                let aot = aot_code(wasm.as_slice());
                policy.aot_compiled = Some(aot);
            }
            policy.compiled_wasm = Some(wasm);
        },
        _ => {
            policy.compiled_wasm = Some(wasm);
        },
    }
    policy.source = source;
    policy.version = policy.version + 1;
    policy.updated_at = now;
    policy.compile_time_ms = elapsed_ms;
    Ok(policy)
}

/// A snapshot of all policies.
#[derive(Debug, Clone)]
pub struct PolicySnapshot {
    pub snapshot_id: String,
    pub timestamp: i64,
    pub policies: Vec<Policy>,
    pub hash: String,
    pub size_bytes: usize,
}

/// Whether the policy at index `i` of `s` has the identifier `id`.
pub open spec fn policy_at(s: Seq<Policy>, id: Seq<char>, i: int) -> bool {
    0 <= i < s.len() && s[i].policy_id@ == id
}

/// Whether some policy of `s` has the identifier `id`.
pub open spec fn has_policy(s: Seq<Policy>, id: Seq<char>) -> bool {
    exists|i: int| policy_at(s, id, i)
}

/// Whether no two policies of `s` share an identifier.
pub open spec fn policies_unique(s: Seq<Policy>) -> bool {
    forall|i: int, j: int| 0 <= i < j < s.len() ==> s[i].policy_id@ != s[j].policy_id@
}

/// The policy of `s` with the identifier `id`, if any.
pub open spec fn find_policy(s: Seq<Policy>, id: Seq<char>) -> Option<Policy> {
    if has_policy(s, id) {
        Some(s[choose|i: int| policy_at(s, id, i)])
    } else {
        None
    }
}

/// With identifiers unique, the policy at an index holding an identifier
/// is the one found by it.
pub proof fn lemma_find_policy_at(s: Seq<Policy>, id: Seq<char>, i: int)
    requires
        policies_unique(s),
        policy_at(s, id, i),
    ensures
        find_policy(s, id) == Some(s[i]),
{
    let k = choose|k: int| policy_at(s, id, k);
    assert(policy_at(s, id, k));
    if k != i {
        if k < i {
            assert(s[k].policy_id@ != s[i].policy_id@);
        } else {
            assert(s[i].policy_id@ != s[k].policy_id@);
        }
    }
}

/// The index of the policy with identifier `id`, if any.
fn policy_position(v: &Vec<Policy>, id: &str) -> (r: Option<usize>)
    ensures
        match r {
            Some(i) => policy_at(v@, id@, i as int),
            None => !has_policy(v@, id@),
        },
{
    let mut i: usize = 0;
    while i < v.len()
        invariant
            i <= v@.len(),
            forall|j: int| 0 <= j < i ==> v@[j].policy_id@ != id@,
        decreases v@.len() - i,
    {
        if str_eq(v[i].policy_id.as_str(), id) {
            return Some(i);
        }
        i = i + 1;
    }
    assert forall|j: int| !policy_at(v@, id@, j) by {}
    None
}

/// Puts a policy in the list, in place of the one with the same
/// identifier or at the end.
fn put_policy(v: &mut Vec<Policy>, p: Policy)
    requires
        policies_unique(old(v)@),
    ensures
        policies_unique(final(v)@),
        find_policy(final(v)@, p.policy_id@) == Some(p),
        forall|n: Seq<char>| n != p.policy_id@ ==> find_policy(final(v)@, n) == find_policy(old(v)@, n),
        final(v)@.len() == old(v)@.len() + if has_policy(old(v)@, p.policy_id@) { 0int } else { 1int },
{
    let ghost before = v@;
    let ghost id = p.policy_id@;
    let ghost k: int;
    match policy_position(v, p.policy_id.as_str()) {
        Some(i) => {
            let _replaced = v.remove(i);
            v.insert(i, p);
            proof {
                k = i as int;
                assert(v@ =~= before.update(i as int, v@[i as int]));
                assert forall|j: int| 0 <= j < v@.len() implies #[trigger] v@[j].policy_id@ == before[j].policy_id@ by {}
            }
        },
        None => {
            v.push(p);
            proof {
                k = before.len() as int;
                assert(v@.drop_last() =~= before);
                assert forall|j: int| 0 <= j < before.len() implies #[trigger] v@[j].policy_id@ != v@.last().policy_id@ by {
                    assert(!policy_at(before, id, j));
                }
            }
        },
    }
    proof {
        lemma_find_policy_at(v@, id, k);
        assert forall|n: Seq<char>| n != id implies find_policy(v@, n) == find_policy(before, n) by {
            if has_policy(before, n) {
                let j = choose|j: int| policy_at(before, n, j);
                assert(j != k);
                assert(v@[j] == before[j]);
                lemma_find_policy_at(before, n, j);
                lemma_find_policy_at(v@, n, j);
            } else {
                assert forall|j: int| !policy_at(v@, n, j) by {
                    if 0 <= j < v@.len() && j != k {
                        assert(v@[j] == before[j]);
                        assert(!policy_at(before, n, j));
                    }
                }
            }
        }
    }
}

/// Whether two lists of policies hold the same data, position by position.
pub open spec fn same_policies(a: Seq<Policy>, b: Seq<Policy>) -> bool {
    &&& a.len() == b.len()
    &&& forall|i: int| 0 <= i < a.len() ==> #[trigger] a[i].same_as(&b[i])
}

/// Copies of a list of policies.
fn copy_policies(v: &Vec<Policy>) -> (r: Vec<Policy>)
    ensures
        same_policies(r@, v@),
{
    let mut out: Vec<Policy> = Vec::new();
    let mut i: usize = 0;
    while i < v.len()
        invariant
            i <= v@.len(),
            out@.len() == i,
            forall|j: int| 0 <= j < i ==> #[trigger] out@[j].same_as(&v@[j]),
        decreases v@.len() - i,
    {
        out.push(v[i].duplicate());
        i = i + 1;
    }
    out
}

/// Lists of the same policies have the same identifiers, so one is free of
/// repeated identifiers when the other is.
proof fn lemma_same_policies_unique(a: Seq<Policy>, b: Seq<Policy>)
    requires
        same_policies(a, b),
        policies_unique(b),
    ensures
        policies_unique(a),
{
    assert forall|i: int, j: int| 0 <= i < j < a.len() implies a[i].policy_id@ != a[j].policy_id@ by {
        assert(a[i].same_as(&b[i]));
        assert(a[j].same_as(&b[j]));
    }
}

impl PolicySnapshot {
    /// Whether two snapshots hold the same data.
    pub open spec fn same_as(&self, o: &PolicySnapshot) -> bool {
        &&& self.snapshot_id == o.snapshot_id
        &&& self.timestamp == o.timestamp
        &&& same_policies(self.policies@, o.policies@)
        &&& self.hash == o.hash
        &&& self.size_bytes == o.size_bytes
    }

    /// A copy holding the same data.
    pub fn duplicate(&self) -> (r: PolicySnapshot)
        ensures
            r.same_as(self),
    {
        PolicySnapshot {
            snapshot_id: self.snapshot_id.clone(),
            timestamp: self.timestamp,
            policies: copy_policies(&self.policies),
            hash: self.hash.clone(),
            size_bytes: self.size_bytes,
        }
    }
}

/// The four big-endian bytes of a version number.
pub open spec fn be_u32_bytes(v: u32) -> Seq<u8> {
    seq![(v / 16777216) as u8, ((v / 65536) % 256) as u8, ((v / 256) % 256) as u8, (v % 256) as u8]
}

/// What a snapshot's digest is taken over: for each policy in turn, the
/// bytes of its identifier and its version in big-endian order.
pub open spec fn snapshot_input(ps: Seq<Policy>) -> Seq<u8>
    decreases ps.len(),
{
    if ps.len() == 0 {
        Seq::empty()
    } else {
        snapshot_input(ps.drop_last()) + encode_utf8(ps.last().policy_id@) + be_u32_bytes(ps.last().version)
    }
}

/// The bytes a snapshot holds: each policy's source and compiled code.
pub open spec fn snapshot_size(ps: Seq<Policy>) -> nat
    decreases ps.len(),
{
    if ps.len() == 0 {
        0
    } else {
        snapshot_size(ps.drop_last()) + encode_utf8(ps.last().source@).len() + match ps.last().compiled_wasm {
            Some(w) => w@.len(),
            None => 0,
        }
    }
}

/// The size of a list is at least the size of any of its prefixes.
proof fn lemma_snapshot_size_prefix(ps: Seq<Policy>, i: int)
    requires
        0 <= i <= ps.len(),
    ensures
        snapshot_size(ps.take(i)) <= snapshot_size(ps),
    decreases ps.len() - i,
{
    if i < ps.len() {
        lemma_snapshot_size_prefix(ps, i + 1);
        assert(ps.take(i + 1).drop_last() =~= ps.take(i));
    } else {
        assert(ps.take(i) =~= ps);
    }
}

/// Rolling back to a snapshot restores the policies it was taken of: the
/// same policies, with the same data, in the same order.
pub proof fn lemma_rollback_restores(taken: Seq<Policy>, snap: PolicySnapshot, restored: Seq<Policy>)
    requires
        same_policies(snap.policies@, taken),
        same_policies(restored, snap.policies@),
    ensures
        same_policies(restored, taken),
{
    assert forall|i: int| 0 <= i < restored.len() implies #[trigger] restored[i].same_as(&taken[i]) by {
        assert(restored[i].same_as(&snap.policies@[i]));
        assert(snap.policies@[i].same_as(&taken[i]));
    }
}

/// The policy compiler: its settings, the registered policies (one per
/// identifier), its snapshots (one per identifier), its counters, and
/// whether it runs.
pub struct PolicyDSLCompiler {
    config: PolicyConfig,
    policies: Vec<Policy>,
    snapshots: Vec<PolicySnapshot>,
    stats: PolicyStats,
    running: bool,
}

/// Whether no two snapshots of `s` share an identifier, and each holds no
/// repeated policy identifier.
pub open spec fn snapshots_sound(s: Seq<PolicySnapshot>) -> bool {
    &&& forall|i: int, j: int| 0 <= i < j < s.len() ==> s[i].snapshot_id@ != s[j].snapshot_id@
    &&& forall|i: int| 0 <= i < s.len() ==> policies_unique(#[trigger] s[i].policies@)
}

impl PolicyDSLCompiler {
    #[verifier::type_invariant]
    closed spec fn inv(&self) -> bool {
        &&& policies_unique(self.policies@)
        &&& snapshots_sound(self.snapshots@)
    }

    /// The settings.
    pub closed spec fn config(&self) -> PolicyConfig {
        self.config
    }

    /// The registered policies.
    pub closed spec fn policies(&self) -> Seq<Policy> {
        self.policies@
    }

    /// The snapshots taken.
    pub closed spec fn snapshots(&self) -> Seq<PolicySnapshot> {
        self.snapshots@
    }

    /// The counters.
    pub closed spec fn stats(&self) -> PolicyStats {
        self.stats
    }

    /// Whether the compiler runs.
    pub closed spec fn spec_running(&self) -> bool {
        self.running
    }

    /// A stopped compiler with the given settings, no policies, no
    /// snapshots and all counters at zero.
    pub fn new(config: PolicyConfig) -> (r: PolicyDSLCompiler)
        ensures
            r.config() == config,
            r.policies().len() == 0,
            r.snapshots().len() == 0,
            r.stats() == PolicyStats::zero_spec(),
            !r.spec_running(),
    {
        PolicyDSLCompiler {
            config: config,
            policies: Vec::new(),
            snapshots: Vec::new(),
            stats: PolicyStats::zero(),
            running: false,
        }
    }

    /// Starts the compiler.
    pub fn start(&mut self) -> (r: Result<(), String>)
        ensures
            r is Ok,
            final(self).spec_running(),
            final(self).config() == old(self).config(),
            final(self).policies() == old(self).policies(),
            final(self).snapshots() == old(self).snapshots(),
            final(self).stats() == old(self).stats(),
    {
        proof {
            use_type_invariant(&*self);
        }
        self.running = true;
        Ok(())
    }

    /// Stops the compiler.
    pub fn stop(&mut self)
        ensures
            !final(self).spec_running(),
            final(self).config() == old(self).config(),
            final(self).policies() == old(self).policies(),
            final(self).snapshots() == old(self).snapshots(),
            final(self).stats() == old(self).stats(),
    {
        proof {
            use_type_invariant(&*self);
        }
        self.running = false;
    }

    /// Whether the compiler runs.
    pub fn is_running(&self) -> (r: bool)
        ensures
            r == self.spec_running(),
    {
        self.running
    }

    /// The counters.
    pub fn get_stats(&self) -> (r: PolicyStats)
        ensures
            r == self.stats(),
    {
        self.stats
    }

    /// Compiles a policy at time `now` in `elapsed_ms`, counting the
    /// compilation and, when the result has an ahead-of-time artefact,
    /// that too.
    pub fn compile_policy(&mut self, policy: Policy, now: i64, elapsed_ms: u64) -> (r: Result<Policy, String>)
        requires
            policy.version < u32::MAX,
            can_compile(old(self).stats()),
        ensures
            final(self).config() == old(self).config(),
            final(self).policies() == old(self).policies(),
            final(self).snapshots() == old(self).snapshots(),
            final(self).spec_running() == old(self).spec_running(),
            compile_fails(policy, old(self).config()) ==> {
                &&& r matches Err(e) && e@ == "WASM too large"@
                &&& final(self).stats() == old(self).stats()
            },
            !compile_fails(policy, old(self).config()) ==> {
                &&& r matches Ok(p2) && is_compiled(p2, policy, old(self).config(), now, elapsed_ms)
                    && final(self).stats() == stats_after_compile(old(self).stats(), p2)
            },
    {
        proof {
            use_type_invariant(&*self);
        }
        let source = policy.source.clone();
        let r = compile_with(policy, source, &self.config, now, elapsed_ms);
        if let Ok(p2) = &r {
            self.stats.compiled_policies = self.stats.compiled_policies + 1;
            if p2.aot_compiled.is_some() {
                self.stats.aot_compiled = self.stats.aot_compiled + 1;
            }
        }
        r
    }

    /// The policy with that identifier.
    pub fn get_policy(&self, policy_id: &str) -> (r: Option<Policy>)
        ensures
            match r {
                Some(p) => find_policy(self.policies(), policy_id@) matches Some(q) && p.same_as(&q),
                None => find_policy(self.policies(), policy_id@) is None,
            },
    {
        proof {
            use_type_invariant(self);
        }
        match policy_position(&self.policies, policy_id) {
            Some(i) => {
                proof {
                    lemma_find_policy_at(self.policies@, policy_id@, i as int);
                }
                Some(self.policies[i].duplicate())
            },
            None => None,
        }
    }
}

impl PolicyStats {
    /// All counters at zero.
    pub open spec fn zero_spec() -> PolicyStats {
        PolicyStats {
            total_policies: 0,
            active_policies: 0,
            compiled_policies: 0,
            aot_compiled: 0,
            total_snapshots: 0,
            hot_reloads: 0,
            compilation_failures: 0,
            total_evaluations: 0,
            total_gas_used: 0,
            avg_evaluation_time_ns: 0,
        }
    }
}

/// Replacing the policy at an index by one with the same identifier keeps
/// identifiers unique, makes it the one found by that identifier, and
/// changes what any other identifier finds in nothing.
proof fn lemma_replace_policy(before: Seq<Policy>, after: Seq<Policy>, i: int, x: Policy)
    requires
        policies_unique(before),
        0 <= i < before.len(),
        x.policy_id@ == before[i].policy_id@,
        after == before.update(i, x),
    ensures
        policies_unique(after),
        find_policy(after, x.policy_id@) == Some(x),
        forall|n: Seq<char>| n != x.policy_id@ ==> find_policy(after, n) == find_policy(before, n),
{
    assert forall|a: int, b: int| 0 <= a < b < after.len() implies after[a].policy_id@ != after[b].policy_id@ by {
        assert(after[a].policy_id@ == before[a].policy_id@);
        assert(after[b].policy_id@ == before[b].policy_id@);
    }
    lemma_find_policy_at(after, x.policy_id@, i);
    assert forall|n: Seq<char>| n != x.policy_id@ implies find_policy(after, n) == find_policy(before, n) by {
        if has_policy(before, n) {
            let j = choose|j: int| policy_at(before, n, j);
            assert(j != i);
            lemma_find_policy_at(before, n, j);
            lemma_find_policy_at(after, n, j);
        } else {
            assert forall|j: int| !policy_at(after, n, j) by {
                if 0 <= j < after.len() && j != i {
                    assert(!policy_at(before, n, j));
                }
            }
        }
    }
}

/// Whether the snapshot at index `i` of `s` has the identifier `id`.
pub open spec fn snapshot_at(s: Seq<PolicySnapshot>, id: Seq<char>, i: int) -> bool {
    0 <= i < s.len() && s[i].snapshot_id@ == id
}

/// The snapshot of `s` with the identifier `id`, if any.
pub open spec fn find_snapshot(s: Seq<PolicySnapshot>, id: Seq<char>) -> Option<PolicySnapshot> {
    if exists|i: int| snapshot_at(s, id, i) {
        Some(s[choose|i: int| snapshot_at(s, id, i)])
    } else {
        None
    }
}

/// With snapshot identifiers unique, the snapshot at an index holding an
/// identifier is the one found by it.
proof fn lemma_find_snapshot_at(s: Seq<PolicySnapshot>, id: Seq<char>, i: int)
    requires
        snapshots_sound(s),
        snapshot_at(s, id, i),
    ensures
        find_snapshot(s, id) == Some(s[i]),
{
    let k = choose|k: int| snapshot_at(s, id, k);
    assert(snapshot_at(s, id, k));
    if k != i {
        if k < i {
            assert(s[k].snapshot_id@ != s[i].snapshot_id@);
        } else {
            assert(s[i].snapshot_id@ != s[k].snapshot_id@);
        }
    }
}

/// The index of the snapshot with identifier `id`, if any.
fn snapshot_position(v: &Vec<PolicySnapshot>, id: &str) -> (r: Option<usize>)
    ensures
        match r {
            Some(i) => snapshot_at(v@, id@, i as int),
            None => forall|j: int| !snapshot_at(v@, id@, j),
        },
{
    let mut i: usize = 0;
    while i < v.len()
        invariant
            i <= v@.len(),
            forall|j: int| 0 <= j < i ==> v@[j].snapshot_id@ != id@,
        decreases v@.len() - i,
    {
        if str_eq(v[i].snapshot_id.as_str(), id) {
            return Some(i);
        }
        i = i + 1;
    }
    None
}

/// Whether a listing with this direction and activity filter shows `p`.
pub open spec fn listed(p: Policy, direction: Option<Seq<char>>, active_only: bool) -> bool {
    &&& match direction {
        None => true,
        Some(d) => p.direction@ == d,
    }
    &&& (!active_only || p.active)
}

/// The text of an optional direction.
pub open spec fn direction_view(d: Option<&str>) -> Option<Seq<char>> {
    match d {
        Some(t) => Some(t@),
        None => None,
    }
}

impl PolicyDSLCompiler {
    /// Registers a policy compiled at time `now` in `elapsed_ms`, unless the
    /// registry is full or the policy does not compile. A policy with the
    /// same identifier is replaced; the policy count goes up either way, and
    /// the active count when the policy is active.
    pub fn register_policy(&mut self, policy: Policy, now: i64, elapsed_ms: u64) -> (r: Result<(), String>)
        requires
            policy.version < u32::MAX,
            can_compile(old(self).stats()),
            old(self).stats().total_policies < usize::MAX,
            old(self).stats().active_policies < usize::MAX,
        ensures
            final(self).config() == old(self).config(),
            final(self).snapshots() == old(self).snapshots(),
            final(self).spec_running() == old(self).spec_running(),
            old(self).policies().len() >= old(self).config().max_policies ==> {
                &&& r matches Err(e) && e@ == "policy limit reached"@
                &&& final(self).policies() == old(self).policies()
                &&& final(self).stats() == old(self).stats()
            },
            old(self).policies().len() < old(self).config().max_policies && compile_fails(policy, old(self).config()) ==> {
                &&& r matches Err(e) && e@ == "WASM too large"@
                &&& final(self).policies() == old(self).policies()
                &&& final(self).stats() == old(self).stats()
            },
            old(self).policies().len() < old(self).config().max_policies && !compile_fails(policy, old(self).config()) ==> {
                &&& r is Ok
                &&& find_policy(final(self).policies(), policy.policy_id@) matches Some(p2)
                    && is_compiled(p2, policy, old(self).config(), now, elapsed_ms)
                    && final(self).stats() == (PolicyStats {
                        total_policies: (old(self).stats().total_policies + 1) as usize,
                        active_policies: if policy.active { (old(self).stats().active_policies + 1) as usize } else { old(self).stats().active_policies },
                        ..stats_after_compile(old(self).stats(), p2)
                    })
                &&& forall|n: Seq<char>| n != policy.policy_id@ ==> find_policy(final(self).policies(), n) == find_policy(old(self).policies(), n)
            },
    {
        proof {
            use_type_invariant(&*self);
        }
        if self.policies.len() >= self.config.max_policies {
            return Err(owned("policy limit reached"));
        }
        let compiled = self.compile_policy(policy, now, elapsed_ms);
        proof {
            use_type_invariant(&*self);
        }
        match compiled {
            Err(e) => Err(e),
            Ok(p2) => {
                let active = p2.active;
                let mut v: Vec<Policy> = Vec::new();
                std::mem::swap(&mut v, &mut self.policies);
                put_policy(&mut v, p2);
                self.policies = v;
                self.stats.total_policies = self.stats.total_policies + 1;
                if active {
                    self.stats.active_policies = self.stats.active_policies + 1;
                }
                Ok(())
            },
        }
    }

    /// Replaces a registered policy by a new text of it, compiled at time
    /// `now` in `elapsed_ms`: the new text takes the next version after the
    /// registered one (compilation then moves it one further) and keeps its
    /// creation time.
    pub fn update_policy(&mut self, policy: Policy, now: i64, elapsed_ms: u64) -> (r: Result<(), String>)
        requires
            can_compile(old(self).stats()),
            find_policy(old(self).policies(), policy.policy_id@) matches Some(e) ==> e.version + 2 <= u32::MAX,
        ensures
            final(self).config() == old(self).config(),
            final(self).snapshots() == old(self).snapshots(),
            final(self).spec_running() == old(self).spec_running(),
            find_policy(old(self).policies(), policy.policy_id@) is None ==> {
                &&& r matches Err(e) && e@ == "policy not found"@
                &&& final(self).policies() == old(self).policies()
                &&& final(self).stats() == old(self).stats()
            },
            find_policy(old(self).policies(), policy.policy_id@) matches Some(e) ==> {
                let q = Policy { version: (e.version + 1) as u32, created_at: e.created_at, ..policy };
                if compile_fails(policy, old(self).config()) {
                    &&& r matches Err(m) && m@ == "WASM too large"@
                    &&& final(self).policies() == old(self).policies()
                    &&& final(self).stats() == old(self).stats()
                } else {
                    &&& r is Ok
                    &&& find_policy(final(self).policies(), policy.policy_id@) matches Some(p2)
                        && is_compiled(p2, q, old(self).config(), now, elapsed_ms)
                        && final(self).stats() == stats_after_compile(old(self).stats(), p2)
                    &&& forall|n: Seq<char>| n != policy.policy_id@ ==> find_policy(final(self).policies(), n) == find_policy(old(self).policies(), n)
                }
            },
    {
        proof {
            use_type_invariant(&*self);
        }
        let mut policy = policy;
        let ghost p0 = policy;
        match policy_position(&self.policies, policy.policy_id.as_str()) {
            None => Err(owned("policy not found")),
            Some(i) => {
                proof {
                    lemma_find_policy_at(self.policies@, p0.policy_id@, i as int);
                }
                policy.version = self.policies[i].version + 1;
                policy.created_at = self.policies[i].created_at;
                let compiled = self.compile_policy(policy, now, elapsed_ms);
                proof {
                    use_type_invariant(&*self);
                }
                match compiled {
                    Err(e) => Err(e),
                    Ok(p2) => {
                        let mut v: Vec<Policy> = Vec::new();
                        std::mem::swap(&mut v, &mut self.policies);
                        put_policy(&mut v, p2);
                        self.policies = v;
                        Ok(())
                    },
                }
            },
        }
    }

    /// Deactivates the policy with that identifier; the active count goes
    /// down by one.
    pub fn deactivate_policy(&mut self, policy_id: &str) -> (r: Result<(), String>)
        requires
            has_policy(old(self).policies(), policy_id@) ==> old(self).stats().active_policies > 0,
        ensures
            final(self).config() == old(self).config(),
            final(self).snapshots() == old(self).snapshots(),
            final(self).spec_running() == old(self).spec_running(),
            find_policy(old(self).policies(), policy_id@) is None ==> {
                &&& r matches Err(e) && e@ == "policy not found"@
                &&& final(self).policies() == old(self).policies()
                &&& final(self).stats() == old(self).stats()
            },
            find_policy(old(self).policies(), policy_id@) matches Some(e) ==> {
                &&& r is Ok
                &&& find_policy(final(self).policies(), policy_id@) == Some(Policy { active: false, ..e })
                &&& forall|n: Seq<char>| n != policy_id@ ==> find_policy(final(self).policies(), n) == find_policy(old(self).policies(), n)
                &&& final(self).stats() == (PolicyStats { active_policies: (old(self).stats().active_policies - 1) as usize, ..old(self).stats() })
            },
    {
        proof {
            use_type_invariant(&*self);
        }
        match policy_position(&self.policies, policy_id) {
            None => Err(owned("policy not found")),
            Some(i) => {
                proof {
                    lemma_find_policy_at(self.policies@, policy_id@, i as int);
                }
                let mut v: Vec<Policy> = Vec::new();
                std::mem::swap(&mut v, &mut self.policies);
                let ghost before = v@;
                let mut p = v.remove(i);
                p.active = false;
                v.insert(i, p);
                proof {
                    assert(v@ =~= before.update(i as int, v@[i as int]));
                    lemma_replace_policy(before, v@, i as int, v@[i as int]);
                }
                self.policies = v;
                self.stats.active_policies = self.stats.active_policies - 1;
                Ok(())
            },
        }
    }

    /// Replaces the source of a registered policy and compiles it again at
    /// time `now` in `elapsed_ms`, when hot reload is on.
    pub fn hot_reload(&mut self, policy_id: &str, source: &str, now: i64, elapsed_ms: u64) -> (r: Result<(), String>)
        requires
            can_compile(old(self).stats()),
            old(self).stats().hot_reloads < u64::MAX,
            find_policy(old(self).policies(), policy_id@) matches Some(e) ==> e.version < u32::MAX,
        ensures
            final(self).config() == old(self).config(),
            final(self).snapshots() == old(self).snapshots(),
            final(self).spec_running() == old(self).spec_running(),
            !old(self).config().enable_hot_reload ==> {
                &&& r matches Err(m) && m@ == "hot reload disabled"@
                &&& final(self).policies() == old(self).policies()
                &&& final(self).stats() == old(self).stats()
            },
            old(self).config().enable_hot_reload && find_policy(old(self).policies(), policy_id@) is None ==> {
                &&& r matches Err(m) && m@ == "policy not found"@
                &&& final(self).policies() == old(self).policies()
                &&& final(self).stats() == old(self).stats()
            },
            old(self).config().enable_hot_reload ==> (find_policy(old(self).policies(), policy_id@) matches Some(e) ==> {
                if compile_fails(e, old(self).config()) {
                    &&& r matches Err(m) && m@ == "WASM too large"@
                    &&& final(self).policies() == old(self).policies()
                    &&& final(self).stats() == old(self).stats()
                } else {
                    &&& r is Ok
                    &&& find_policy(final(self).policies(), policy_id@) matches Some(p2)
                        && is_compiled_from(p2, e, source@, old(self).config(), now, elapsed_ms)
                        && final(self).stats() == (PolicyStats {
                            hot_reloads: (old(self).stats().hot_reloads + 1) as u64,
                            ..stats_after_compile(old(self).stats(), p2)
                        })
                    &&& forall|n: Seq<char>| n != policy_id@ ==> find_policy(final(self).policies(), n) == find_policy(old(self).policies(), n)
                }
            }),
    {
        proof {
            use_type_invariant(&*self);
        }
        if !self.config.enable_hot_reload {
            return Err(owned("hot reload disabled"));
        }
        match policy_position(&self.policies, policy_id) {
            None => Err(owned("policy not found")),
            Some(i) => {
                proof {
                    lemma_find_policy_at(self.policies@, policy_id@, i as int);
                }
                let mut p = self.policies[i].duplicate();
                p.source = owned(source);
                let compiled = self.compile_policy(p, now, elapsed_ms);
                proof {
                    use_type_invariant(&*self);
                }
                match compiled {
                    Err(e) => Err(e),
                    Ok(p2) => {
                        let ghost id = p2.policy_id@;
                        let mut v: Vec<Policy> = Vec::new();
                        std::mem::swap(&mut v, &mut self.policies);
                        put_policy(&mut v, p2);
                        self.policies = v;
                        self.stats.hot_reloads = self.stats.hot_reloads + 1;
                        Ok(())
                    },
                }
            },
        }
    }

    /// Evaluates the policy with that identifier on an input, counting the
    /// evaluation with its gas and the `exec_time_ns` it took.
    pub fn evaluate(&mut self, policy_id: &str, input: &[u8], exec_time_ns: u64) -> (r: Result<PolicyEvaluationResult, String>)
        requires
            old(self).stats().can_record(old(self).config().gas_limit / 4, exec_time_ns),
        ensures
            final(self).config() == old(self).config(),
            final(self).policies() == old(self).policies(),
            final(self).snapshots() == old(self).snapshots(),
            final(self).spec_running() == old(self).spec_running(),
            match find_policy(old(self).policies(), policy_id@) {
                None => (r matches Err(m) && m@ == "policy not found"@) && final(self).stats() == old(self).stats(),
                Some(p) => if !p.active {
                    (r matches Err(m) && m@ == "policy not active"@) && final(self).stats() == old(self).stats()
                } else {
                    match p.compiled_wasm {
                        None => (r matches Err(m) && m@ == "policy not compiled"@) && final(self).stats() == old(self).stats(),
                        Some(w) => {
                            &&& r matches Ok(res) && res.decision == spec_decision(w@, input@)
                                && res.policy_id@ == "simulated"@
                                && res.gas_used == old(self).config().gas_limit / 4
                                && res.memory_used == old(self).config().memory_limit / 2
                                && res.execution_time_ns == 100_000
                                && res.error is None
                            &&& final(self).stats() == old(self).stats().after_evaluation(old(self).config().gas_limit / 4, exec_time_ns)
                        },
                    }
                },
            },
    {
        proof {
            use_type_invariant(&*self);
        }
        match policy_position(&self.policies, policy_id) {
            None => Err(owned("policy not found")),
            Some(i) => {
                proof {
                    lemma_find_policy_at(self.policies@, policy_id@, i as int);
                }
                if !self.policies[i].active {
                    return Err(owned("policy not active"));
                }
                match &self.policies[i].compiled_wasm {
                    None => Err(owned("policy not compiled")),
                    Some(w) => {
                        let result = execute_wasm(w.as_slice(), input, &self.config);
                        let mut stats = self.stats;
                        stats.record_evaluation(result.gas_used, exec_time_ns);
                        self.stats = stats;
                        Ok(result)
                    },
                }
            },
        }
    }

    /// Takes a snapshot of all policies at time `now`, under the identifier
    /// `snap_` and the given unique text: copies of the policies, the
    /// digest of their identifiers and versions, and their size. The
    /// snapshot is kept, in place of one with the same identifier.
    pub fn create_snapshot(&mut self, unique: &str, now: i64) -> (r: PolicySnapshot)
        requires
            old(self).stats().total_snapshots < u64::MAX,
            snapshot_size(old(self).policies()) <= usize::MAX,
        ensures
            r.snapshot_id@ == "snap_"@ + unique@,
            r.timestamp == now,
            same_policies(r.policies@, old(self).policies()),
            r.hash@ == hex_lower(sha256_spec(snapshot_input(old(self).policies()))),
            r.size_bytes == snapshot_size(old(self).policies()),
            find_snapshot(final(self).snapshots(), r.snapshot_id@) matches Some(kept) && kept.same_as(&r),
            final(self).config() == old(self).config(),
            final(self).policies() == old(self).policies(),
            final(self).spec_running() == old(self).spec_running(),
            final(self).stats() == (PolicyStats { total_snapshots: (old(self).stats().total_snapshots + 1) as u64, ..old(self).stats() }),
    {
        proof {
            use_type_invariant(&*self);
        }
        let ghost ps = self.policies@;
        let mut data: Vec<u8> = Vec::new();
        let mut size: usize = 0;
        let mut i: usize = 0;
        while i < self.policies.len()
            invariant
                ps == self.policies@,
                i <= ps.len(),
                data@ == snapshot_input(ps.take(i as int)),
                size == snapshot_size(ps.take(i as int)),
                snapshot_size(ps) <= usize::MAX,
            decreases ps.len() - i,
        {
            let p = &self.policies[i];
            proof {
                assert(ps.take(i + 1).drop_last() =~= ps.take(i as int));
                assert(ps.take(i + 1).last() == ps[i as int]);
                lemma_snapshot_size_prefix(ps, i + 1);
            }
            let v = p.version;
            let id_part = concat2(data.as_slice(), p.policy_id.as_str().as_bytes());
            let be: [u8; 4] = [(v / 16777216) as u8, ((v / 65536) % 256) as u8, ((v / 256) % 256) as u8, (v % 256) as u8];
            data = concat2(id_part.as_slice(), &be);
            proof {
                assert(be@ =~= be_u32_bytes(v));
            }
            let wasm_len: usize = match &p.compiled_wasm {
                Some(w) => w.len(),
                None => 0,
            };
            size = size + p.source.as_str().len() + wasm_len;
            i = i + 1;
        }
        proof {
            assert(ps.take(ps.len() as int) =~= ps);
        }
        let digest = sha256(data.as_slice());
        let mut id = owned("snap_");
        push_str(&mut id, unique);
        let snapshot = PolicySnapshot {
            snapshot_id: id,
            timestamp: now,
            policies: copy_policies(&self.policies),
            hash: hex_encode(digest.as_slice()),
            size_bytes: size,
        };
        let kept = snapshot.duplicate();
        proof {
            lemma_same_policies_unique(snapshot.policies@, ps);
            lemma_same_policies_unique(kept.policies@, snapshot.policies@);
        }
        let mut snaps: Vec<PolicySnapshot> = Vec::new();
        std::mem::swap(&mut snaps, &mut self.snapshots);
        let ghost before = snaps@;
        let ghost k: int;
        match snapshot_position(&snaps, snapshot.snapshot_id.as_str()) {
            Some(j) => {
                let _replaced = snaps.remove(j);
                snaps.insert(j, kept);
                proof {
                    k = j as int;
                    assert(snaps@ =~= before.update(j as int, snaps@[j as int]));
                    assert forall|a: int| 0 <= a < snaps@.len() implies #[trigger] snaps@[a].snapshot_id@ == before[a].snapshot_id@ by {}
                }
            },
            None => {
                snaps.push(kept);
                proof {
                    k = before.len() as int;
                    assert(snaps@.drop_last() =~= before);
                    assert forall|a: int| 0 <= a < before.len() implies #[trigger] snaps@[a].snapshot_id@ != snaps@.last().snapshot_id@ by {
                        assert(!snapshot_at(before, snapshot.snapshot_id@, a));
                    }
                }
            },
        }
        proof {
            assert forall|a: int| 0 <= a < snaps@.len() implies policies_unique(#[trigger] snaps@[a].policies@) by {
                if a != k {
                    assert(snaps@[a] == before[a]);
                }
            }
            lemma_find_snapshot_at(snaps@, snapshot.snapshot_id@, k);
        }
        self.snapshots = snaps;
        self.stats.total_snapshots = self.stats.total_snapshots + 1;
        snapshot
    }

    /// Replaces the registered policies by those of the snapshot with that
    /// identifier.
    pub fn rollback_snapshot(&mut self, snapshot_id: &str) -> (r: Result<(), String>)
        ensures
            final(self).config() == old(self).config(),
            final(self).snapshots() == old(self).snapshots(),
            final(self).stats() == old(self).stats(),
            final(self).spec_running() == old(self).spec_running(),
            match find_snapshot(old(self).snapshots(), snapshot_id@) {
                None => (r matches Err(m) && m@ == "snapshot not found"@) && final(self).policies() == old(self).policies(),
                Some(snap) => r is Ok && same_policies(final(self).policies(), snap.policies@),
            },
    {
        proof {
            use_type_invariant(&*self);
        }
        match snapshot_position(&self.snapshots, snapshot_id) {
            None => Err(owned("snapshot not found")),
            Some(j) => {
                proof {
                    lemma_find_snapshot_at(self.snapshots@, snapshot_id@, j as int);
                    assert(policies_unique(self.snapshots@[j as int].policies@));
                }
                let restored = copy_policies(&self.snapshots[j].policies);
                proof {
                    lemma_same_policies_unique(restored@, self.snapshots@[j as int].policies@);
                }
                self.policies = restored;
                Ok(())
            },
        }
    }

    /// Copies of the policies a listing shows, in registry order: those of
    /// the direction asked for (all when none is), and only active ones
    /// when asked.
    pub fn list_policies(&self, direction: Option<&str>, active_only: bool) -> (r: Vec<Policy>)
        ensures
            same_policies(r@, self.policies().filter(|p: Policy| listed(p, direction_view(direction), active_only))),
    {
        let ghost ps = self.policies@;
        let ghost pred = |p: Policy| listed(p, direction_view(direction), active_only);
        let mut out: Vec<Policy> = Vec::new();
        let mut i: usize = 0;
        while i < self.policies.len()
            invariant
                ps == self.policies@,
                pred == (|p: Policy| listed(p, direction_view(direction), active_only)),
                i <= ps.len(),
                same_policies(out@, ps.take(i as int).filter(pred)),
            decreases ps.len() - i,
        {
            let p = &self.policies[i];
            let dir_match = match direction {
                None => true,
                Some(d) => str_eq(p.direction.as_str(), d),
            };
            let active_match = !active_only || p.active;
            let ghost out_before = out@;
            proof {
                assert(ps.take(i + 1).drop_last() =~= ps.take(i as int));
                assert(ps.take(i + 1).last() == ps[i as int]);
                reveal(Seq::filter);
                assert(pred(ps[i as int]) == (dir_match && active_match));
                assert(ps.take(i + 1).filter(pred) == if pred(ps[i as int]) {
                    ps.take(i as int).filter(pred).push(ps[i as int])
                } else {
                    ps.take(i as int).filter(pred)
                });
            }
            if dir_match && active_match {
                out.push(p.duplicate());
                proof {
                    let f = ps.take(i + 1).filter(pred);
                    assert forall|j: int| 0 <= j < out@.len() implies #[trigger] out@[j].same_as(&f[j]) by {
                        if j < out_before.len() {
                            assert(out@[j] == out_before[j]);
                        }
                    }
                }
            }
            i = i + 1;
        }
        proof {
            assert(ps.take(ps.len() as int) =~= ps);
        }
        out
    }
}

} // verus!
