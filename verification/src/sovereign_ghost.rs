//! The network privacy layer: onion circuits built over a fixed relay
//! network, their dissolution (one by one, on expiry, or all at once in an
//! emergency), the traffic they relay, and the rotation of temporary
//! identities.

use vstd::prelude::*;
use vstd::string::*;
use vstd::utf8::encode_utf8;
use vstd::wrapping::u64_specs::wrapping_add;
use std::time::Instant;
use crate::clock::{instant_now, secs_since, unix_secs};
use crate::text::{decimal, hex_encode, hex_lower, owned, push_decimal, push_decimal_u128, push_str, str_eq};
use crate::threshold_crypto::{sha256, sha256_spec};

verus! {

/// The settings of the privacy layer.
#[derive(Debug, Clone, Copy)]
pub struct GhostProtocolConfig {
    pub onion_layers: usize,
    pub circuit_timeout_secs: u64,
    pub padding_enabled: bool,
    pub timing_obfuscation_ms: u64,
    pub max_concurrent_circuits: usize,
    pub tor_compatible: bool,
}

impl Default for GhostProtocolConfig {
    /// Three onion layers, five-minute circuits, padding on, up to 50 ms of
    /// timing jitter, sixteen circuits at once, not Tor-compatible.
    fn default() -> (r: GhostProtocolConfig)
        ensures
            r == (GhostProtocolConfig {
                onion_layers: 3,
                circuit_timeout_secs: 300,
                padding_enabled: true,
                timing_obfuscation_ms: 50,
                max_concurrent_circuits: 16,
                tor_compatible: false,
            }),
    {
        GhostProtocolConfig {
            onion_layers: 3,
            circuit_timeout_secs: 300,
            padding_enabled: true,
            timing_obfuscation_ms: 50,
            max_concurrent_circuits: 16,
            tor_compatible: false,
        }
    }
}

/// Where a circuit is in its life.
#[derive(Debug, Clone, Copy, PartialEq, Eq, Structural)]
pub enum CircuitStatus {
    Active,
    Dissolving,
    Dissolved,
}

/// One hop of a circuit. Bandwidths are whole megabits per second.
#[derive(Debug, Clone)]
pub struct HopInfo {
    pub node_id: String,
    pub latency_ms: u64,
    pub bandwidth_mbps: u64,
    pub encryption_layer: usize,
}

/// An onion circuit.
#[derive(Debug, Clone)]
pub struct Circuit {
    pub circuit_id: String,
    pub hops: Vec<HopInfo>,
    pub created_at: u64,
    pub expires_at: u64,
    pub bytes_relayed: u64,
    pub status: CircuitStatus,
}

/// A temporary identity.
#[derive(Debug, Clone)]
pub struct Identity {
    pub temp_id: String,
    pub created_at: u64,
    pub expires_at: u64,
    pub key_material_hash: String,
}

/// What the privacy layer reports of itself.
#[derive(Debug, Clone, Copy)]
pub struct GhostStatus {
    pub active_circuits: usize,
    pub total_dissolved: u64,
    pub identities_rotated: u64,
    pub uptime_secs: u64,
    pub is_emergency_mode: bool,
    pub bytes_relayed_total: u64,
}

/// A packet wrapped for a circuit, one layer per hop.
#[derive(Debug, Clone)]
pub struct OnionPacket {
    pub layers: Vec<EncryptedLayer>,
    pub payload_hash: String,
    pub circuit_id: String,
    pub entry_timestamp: u64,
}

/// One layer of an onion packet.
#[derive(Debug, Clone)]
pub struct EncryptedLayer {
    pub layer_index: usize,
    pub encrypted_key: String,
    pub relay_data: Vec<u8>,
    pub padding_bytes: usize,
}

/// A frame of cover traffic.
#[derive(Debug, Clone)]
pub struct PaddingFrame {
    pub frame_id: String,
    pub size_bytes: usize,
    pub injected_at: u64,
}

/// A relay of the network. Bandwidths are whole megabits per second.
#[derive(Debug, Clone)]
pub struct RelayNode {
    pub node_id: String,
    pub address: String,
    pub latency_ms: u64,
    pub bandwidth_mbps: u64,
    pub is_guard: bool,
    pub is_exit: bool,
}

/// The number of relays in the network.
pub const RELAY_COUNT: usize = 20;

/// The role of relay `i`: the first four guard, the last four exit, the rest
/// relay.
pub open spec fn relay_role(i: nat) -> Seq<char> {
    if i < 4 {
        "guard"@
    } else if i < 16 {
        "relay"@
    } else {
        "exit"@
    }
}

/// `i` written with at least three digits.
pub open spec fn pad3(i: nat) -> Seq<char> {
    if i < 10 {
        "00"@ + decimal(i)
    } else if i < 100 {
        "0"@ + decimal(i)
    } else {
        decimal(i)
    }
}

/// Whether `n` is relay `i` of the network.
pub open spec fn is_relay(n: RelayNode, i: nat) -> bool {
    &&& n.node_id@ == "ghost-"@ + relay_role(i) + "-"@ + pad3(i)
    &&& n.address@ == "10.0."@ + decimal(i / 256) + "."@ + decimal(i % 256)
    &&& n.latency_ms == 5 + i % 15
    &&& n.bandwidth_mbps == 100 + (i * 10) % 200
    &&& n.is_guard == (i < 4)
    &&& n.is_exit == (i >= 16)
}

/// Whether `nodes` is the relay network.
pub open spec fn is_relay_network(nodes: Seq<RelayNode>) -> bool {
    &&& nodes.len() == RELAY_COUNT
    &&& forall|i: int| 0 <= i < nodes.len() ==> #[trigger] is_relay(nodes[i], i as nat)
}

/// The relay network: twenty relays, four guards, twelve middle relays and
/// four exits, on addresses 10.0.0.0 to 10.0.0.19.
pub fn build_relay_network() -> (r: Vec<RelayNode>)
    ensures
        is_relay_network(r@),
{
    let mut nodes: Vec<RelayNode> = Vec::new();
    let mut i: usize = 0;
    while i < RELAY_COUNT
        invariant
            i <= RELAY_COUNT,
            nodes@.len() == i,
            forall|j: int| 0 <= j < i ==> #[trigger] is_relay(nodes@[j], j as nat),
        decreases RELAY_COUNT - i,
    {
        let role = if i < 4 { "guard" } else if i < 16 { "relay" } else { "exit" };
        let mut id = owned("ghost-");
        push_str(&mut id, role);
        push_str(&mut id, "-");
        if i < 10 {
            push_str(&mut id, "00");
        } else if i < 100 {
            push_str(&mut id, "0");
        }
        push_decimal(&mut id, i as u64);
        assert(role@ == relay_role(i as nat));
        assert(id@ =~= "ghost-"@ + relay_role(i as nat) + "-"@ + pad3(i as nat));
        let mut address = owned("10.0.");
        push_decimal(&mut address, (i / 256) as u64);
        push_str(&mut address, ".");
        push_decimal(&mut address, (i % 256) as u64);
        assert(address@ =~= "10.0."@ + decimal((i / 256) as nat) + "."@ + decimal((i % 256) as nat));
        let n = i as u64;
        nodes.push(RelayNode {
            node_id: id,
            address: address,
            latency_ms: 5 + n % 15,
            bandwidth_mbps: 100 + (n * 10) % 200,
            is_guard: i < 4,
            is_exit: i >= 16,
        });
        i = i + 1;
    }
    nodes
}


/// Whether relay `n` may serve layer `layer` of a circuit of `layers`
/// layers: a guard first, an exit last, any relay in between.
pub open spec fn eligible(n: RelayNode, layer: int, layers: int) -> bool {
    ||| (layer == 0 && n.is_guard)
    ||| (layer == layers - 1 && n.is_exit)
    ||| (layer > 0 && layer < layers - 1)
}

/// The relays among the first `n` that may serve `layer` and are not in
/// `used`, in network order.
pub open spec fn candidates_upto(nodes: Seq<RelayNode>, layers: int, layer: int, used: Seq<usize>, n: int) -> Seq<usize>
    decreases n,
{
    if n <= 0 {
        Seq::empty()
    } else {
        let prev = candidates_upto(nodes, layers, layer, used, n - 1);
        if !used.contains((n - 1) as usize) && eligible(nodes[n - 1], layer, layers) {
            prev.push((n - 1) as usize)
        } else {
            prev
        }
    }
}

/// The relays that may serve `layer` and are not in `used`.
pub open spec fn candidates(nodes: Seq<RelayNode>, layers: int, layer: int, used: Seq<usize>) -> Seq<usize> {
    candidates_upto(nodes, layers, layer, used, nodes.len() as int)
}

/// The relays chosen for the first `k` layers, each drawn from that
/// layer's candidates by its pick (modulo their number); or the first layer
/// that has no candidate.
pub open spec fn hop_plan(nodes: Seq<RelayNode>, layers: int, picks: Seq<u64>, k: int) -> Result<Seq<usize>, int>
    decreases k,
{
    if k <= 0 {
        Ok(Seq::empty())
    } else {
        match hop_plan(nodes, layers, picks, k - 1) {
            Err(l) => Err(l),
            Ok(prev) => {
                let c = candidates(nodes, layers, k - 1, prev);
                if c.len() == 0 {
                    Err(k - 1)
                } else {
                    Ok(prev.push(c[(picks[k - 1] as int) % (c.len() as int)]))
                }
            },
        }
    }
}

/// A relay among the first `n` that may serve the layer and is not used
/// makes the layer's candidates non-empty.
proof fn lemma_candidate_found(nodes: Seq<RelayNode>, layers: int, layer: int, used: Seq<usize>, n: int, j: int)
    requires
        0 <= j < n <= nodes.len(),
        !used.contains(j as usize),
        eligible(nodes[j], layer, layers),
    ensures
        candidates_upto(nodes, layers, layer, used, n).len() > 0,
    decreases n,
{
    if j < n - 1 {
        lemma_candidate_found(nodes, layers, layer, used, n - 1, j);
    }
}

/// On the relay network a circuit of three layers is always drawn, whatever
/// the picks: there are four guards, twelve middle relays and four exits,
/// and only two relays are taken before the exit is drawn.
pub proof fn lemma_relay_network_three_layers(nodes: Seq<RelayNode>, picks: Seq<u64>)
    requires
        is_relay_network(nodes),
        picks.len() >= 3,
    ensures
        hop_plan(nodes, 3, picks, 3) is Ok,
{
    let n = nodes.len() as int;
    reveal_with_fuel(hop_plan, 2);
    assert(is_relay(nodes[0int], 0int as nat));
    lemma_candidate_found(nodes, 3, 0, Seq::<usize>::empty(), n, 0);
    let p1 = hop_plan(nodes, 3, picks, 1);
    assert(p1 is Ok);
    let u1 = p1->Ok_0;
    assert(u1.len() == 1);
    let j1: int = if u1[0] == 4usize { 5 } else { 4 };
    assert(!u1.contains(j1 as usize)) by {
        if u1.contains(j1 as usize) {
            let k = choose|k: int| 0 <= k < u1.len() && u1[k] == j1 as usize;
            assert(k == 0);
        }
    }
    lemma_candidate_found(nodes, 3, 1, u1, n, j1);
    let p2 = hop_plan(nodes, 3, picks, 2);
    assert(p2 is Ok);
    let u2 = p2->Ok_0;
    assert(u2.len() == 2);
    let j2: int = if u2[0] != 16usize && u2[1] != 16usize { 16 } else if u2[0] != 17usize && u2[1] != 17usize { 17 } else { 18 };
    assert(is_relay(nodes[j2], j2 as nat));
    assert(!u2.contains(j2 as usize)) by {
        if u2.contains(j2 as usize) {
            let k = choose|k: int| 0 <= k < u2.len() && u2[k] == j2 as usize;
            assert(k == 0 || k == 1);
        }
    }
    lemma_candidate_found(nodes, 3, 2, u2, n, j2);
}

/// Whether `h` is relay `n` serving layer `layer`, with `jitter` (modulo 10)
/// added to its latency.
pub open spec fn is_hop(h: HopInfo, n: RelayNode, jitter: u64, layer: int) -> bool {
    &&& h.node_id@ == n.node_id@
    &&& h.latency_ms == n.latency_ms + jitter % 10
    &&& h.bandwidth_mbps == n.bandwidth_mbps
    &&& h.encryption_layer == layer
}

/// Whether a list of indices holds `x`.
fn holds_index(v: &Vec<usize>, x: usize) -> (r: bool)
    ensures
        r == v@.contains(x),
{
    let mut i: usize = 0;
    while i < v.len()
        invariant
            i <= v@.len(),
            forall|j: int| 0 <= j < i ==> v@[j] != x,
        decreases v@.len() - i,
    {
        if v[i] == x {
            assert(v@[i as int] == x);
            return true;
        }
        i = i + 1;
    }
    false
}

/// The relays that may serve `layer` of a circuit of `layers` and are not
/// in `used`.
fn layer_candidates(nodes: &Vec<RelayNode>, layers: usize, layer: usize, used: &Vec<usize>) -> (r: Vec<usize>)
    ensures
        r@ == candidates(nodes@, layers as int, layer as int, used@),
        forall|j: int| 0 <= j < r@.len() ==> #[trigger] r@[j] < nodes@.len(),
{
    let mut out: Vec<usize> = Vec::new();
    let mut i: usize = 0;
    while i < nodes.len()
        invariant
            i <= nodes@.len(),
            out@ == candidates_upto(nodes@, layers as int, layer as int, used@, i as int),
            forall|j: int| 0 <= j < out@.len() ==> #[trigger] out@[j] < i,
        decreases nodes@.len() - i,
    {
        let n = &nodes[i];
        let ok = (layer == 0 && n.is_guard) || (layers >= 1 && layer == layers - 1 && n.is_exit) || (layer > 0 && layers >= 1 && layer < layers - 1);
        if !holds_index(used, i) && ok {
            out.push(i);
        }
        i = i + 1;
    }
    out
}


/// A plan fails, if at all, at one of its layers.
proof fn lemma_plan_failure_layer(nodes: Seq<RelayNode>, layers: int, picks: Seq<u64>, k: int)
    requires
        k >= 0,
    ensures
        hop_plan(nodes, layers, picks, k) matches Err(l) ==> 0 <= l < k,
    decreases k,
{
    if k > 0 {
        lemma_plan_failure_layer(nodes, layers, picks, k - 1);
    }
}

/// Relay `i` of the network is the `i`-th relay.
proof fn lemma_relay_at(nodes: Seq<RelayNode>, i: int)
    requires
        is_relay_network(nodes),
        0 <= i < nodes.len(),
    ensures
        is_relay(nodes[i], i as nat),
        nodes[i].latency_ms < 20,
{
    assert(is_relay(nodes[i], i as nat));
}

/// Once a layer has no candidate, every longer plan fails at that layer.
proof fn lemma_plan_failure_persists(nodes: Seq<RelayNode>, layers: int, picks: Seq<u64>, k: int, m: int)
    requires
        0 <= k <= m,
        hop_plan(nodes, layers, picks, k) is Err,
    ensures
        hop_plan(nodes, layers, picks, m) == hop_plan(nodes, layers, picks, k),
    decreases m - k,
{
    if m > k {
        lemma_plan_failure_persists(nodes, layers, picks, k, m - 1);
    }
}

/// Whether each of the first `n` hops is the chosen relay of its layer.
pub open spec fn hops_match(hops: Seq<HopInfo>, idx: Seq<usize>, nodes: Seq<RelayNode>, jitters: Seq<u64>, n: int) -> bool {
    &&& forall|k: int| 0 <= k < n ==> #[trigger] idx[k] < nodes.len()
    &&& forall|k: int| 0 <= k < n ==> #[trigger] is_hop(hops[k], nodes[idx[k] as int], jitters[k], k)
}

/// Adding the hop of the next layer keeps the hops matched.
proof fn lemma_hops_match_push(
    hops: Seq<HopInfo>,
    idx: Seq<usize>,
    nodes: Seq<RelayNode>,
    jitters: Seq<u64>,
    n: int,
    h: HopInfo,
    p: usize,
)
    requires
        hops_match(hops, idx, nodes, jitters, n),
        hops.len() == n,
        idx.len() == n,
        p < nodes.len(),
        is_hop(h, nodes[p as int], jitters[n], n),
    ensures
        hops_match(hops.push(h), idx.push(p), nodes, jitters, n + 1),
{
    assert forall|k: int| 0 <= k < n + 1 implies #[trigger] idx.push(p)[k] < nodes.len() by {
        if k < n {
            assert(idx.push(p)[k] == idx[k]);
        }
    }
    assert forall|k: int| 0 <= k < n + 1 implies #[trigger] is_hop(hops.push(h)[k], nodes[idx.push(p)[k] as int], jitters[k], k) by {
        if k < n {
            assert(hops.push(h)[k] == hops[k]);
            assert(idx.push(p)[k] == idx[k]);
            assert(is_hop(hops[k], nodes[idx[k] as int], jitters[k], k));
        }
    }
}

/// Chooses the relays of a circuit of `layers` layers with the given picks
/// and latency jitters; or the first layer with no candidate.
fn plan_hops(nodes: &Vec<RelayNode>, layers: usize, picks: &[u64], jitters: &[u64]) -> (r: Result<(Vec<usize>, Vec<HopInfo>), usize>)
    requires
        is_relay_network(nodes@),
        picks@.len() >= layers,
        jitters@.len() >= layers,
    ensures
        match hop_plan(nodes@, layers as int, picks@, layers as int) {
            Err(l) => r == Err::<(Vec<usize>, Vec<HopInfo>), usize>(l as usize),
            Ok(idx) => r matches Ok((ix, hops)) && ix@ == idx && hops@.len() == layers
                && hops_match(hops@, idx, nodes@, jitters@, layers as int),
        },
{
    let mut used: Vec<usize> = Vec::new();
    let mut hops: Vec<HopInfo> = Vec::new();
    let mut layer: usize = 0;
    while layer < layers
        invariant
            is_relay_network(nodes@),
            picks@.len() >= layers,
            jitters@.len() >= layers,
            layer <= layers,
            hop_plan(nodes@, layers as int, picks@, layer as int) == Ok::<Seq<usize>, int>(used@),
            used@.len() == layer,
            hops@.len() == layer,
            hops_match(hops@, used@, nodes@, jitters@, layer as int),
        decreases layers - layer,
    {
        let cands = layer_candidates(nodes, layers, layer, &used);
        if cands.len() == 0 {
            proof {
                assert(hop_plan(nodes@, layers as int, picks@, layer + 1) == Err::<Seq<usize>, int>(layer as int));
                lemma_plan_failure_persists(nodes@, layers as int, picks@, layer + 1, layers as int);
            }
            return Err(layer);
        }
        let choice = (picks[layer] % (cands.len() as u64)) as usize;
        let pick = cands[choice];
        proof {
            assert(cands@[choice as int] < nodes@.len());
            lemma_relay_at(nodes@, pick as int);
            assert((picks@[layer as int] as int) % (cands@.len() as int) == choice as int);
            assert(hop_plan(nodes@, layers as int, picks@, layer + 1) == Ok::<Seq<usize>, int>(used@.push(pick)));
        }
        let n = &nodes[pick];
        let hop = HopInfo {
            node_id: n.node_id.clone(),
            latency_ms: n.latency_ms + jitters[layer] % 10,
            bandwidth_mbps: n.bandwidth_mbps,
            encryption_layer: layer,
        };
        proof {
            lemma_hops_match_push(hops@, used@, nodes@, jitters@, layer as int, hop, pick);
        }
        used.push(pick);
        hops.push(hop);
        layer = layer + 1;
    }
    Ok((used, hops))
}


impl HopInfo {
    /// A copy with the same fields.
    pub fn duplicate(&self) -> (r: HopInfo)
        ensures
            r == *self,
    {
        HopInfo {
            node_id: self.node_id.clone(),
            latency_ms: self.latency_ms,
            bandwidth_mbps: self.bandwidth_mbps,
            encryption_layer: self.encryption_layer,
        }
    }
}

impl Circuit {
    /// Whether two circuits hold the same data.
    pub open spec fn same_as(&self, o: &Circuit) -> bool {
        &&& self.circuit_id == o.circuit_id
        &&& self.hops@ == o.hops@
        &&& self.created_at == o.created_at
        &&& self.expires_at == o.expires_at
        &&& self.bytes_relayed == o.bytes_relayed
        &&& self.status == o.status
    }

    /// A copy holding the same data.
    pub fn duplicate(&self) -> (r: Circuit)
        ensures
            r.same_as(self),
    {
        let mut hops: Vec<HopInfo> = Vec::new();
        let mut i: usize = 0;
        while i < self.hops.len()
            invariant
                i <= self.hops@.len(),
                hops@ == self.hops@.take(i as int),
            decreases self.hops@.len() - i,
        {
            hops.push(self.hops[i].duplicate());
            assert(hops@ =~= self.hops@.take(i + 1));
            i = i + 1;
        }
        assert(hops@ =~= self.hops@);
        Circuit {
            circuit_id: self.circuit_id.clone(),
            hops: hops,
            created_at: self.created_at,
            expires_at: self.expires_at,
            bytes_relayed: self.bytes_relayed,
            status: self.status,
        }
    }
}

/// Whether the circuit at index `i` of `s` has the identifier `id`.
pub open spec fn circuit_at(s: Seq<Circuit>, id: Seq<char>, i: int) -> bool {
    0 <= i < s.len() && s[i].circuit_id@ == id
}

/// Whether some circuit of `s` has the identifier `id`.
pub open spec fn has_circuit(s: Seq<Circuit>, id: Seq<char>) -> bool {
    exists|i: int| circuit_at(s, id, i)
}

/// Whether no two circuits of `s` share an identifier.
pub open spec fn circuits_unique(s: Seq<Circuit>) -> bool {
    forall|i: int, j: int| 0 <= i < j < s.len() ==> s[i].circuit_id@ != s[j].circuit_id@
}

/// The circuit of `s` with the identifier `id`, if any.
pub open spec fn find_circuit(s: Seq<Circuit>, id: Seq<char>) -> Option<Circuit> {
    if has_circuit(s, id) {
        Some(s[choose|i: int| circuit_at(s, id, i)])
    } else {
        None
    }
}

/// With identifiers unique, the circuit at an index holding an identifier is
/// the one found by it.
pub proof fn lemma_find_circuit_at(s: Seq<Circuit>, id: Seq<char>, i: int)
    requires
        circuits_unique(s),
        circuit_at(s, id, i),
    ensures
        find_circuit(s, id) == Some(s[i]),
{
    let k = choose|k: int| circuit_at(s, id, k);
    assert(circuit_at(s, id, k));
    if k != i {
        if k < i {
            assert(s[k].circuit_id@ != s[i].circuit_id@);
        } else {
            assert(s[i].circuit_id@ != s[k].circuit_id@);
        }
    }
}

/// Replacing the circuit at an index by one with the same identifier keeps
/// identifiers unique, makes it the one found, and changes what other
/// identifiers find in nothing.
proof fn lemma_replace_circuit(before: Seq<Circuit>, after: Seq<Circuit>, i: int, x: Circuit)
    requires
        circuits_unique(before),
        0 <= i < before.len(),
        x.circuit_id@ == before[i].circuit_id@,
        after == before.update(i, x),
    ensures
        circuits_unique(after),
        find_circuit(after, x.circuit_id@) == Some(x),
        forall|n: Seq<char>| n != x.circuit_id@ ==> find_circuit(after, n) == find_circuit(before, n),
{
    assert forall|a: int, b: int| 0 <= a < b < after.len() implies after[a].circuit_id@ != after[b].circuit_id@ by {
        assert(after[a].circuit_id@ == before[a].circuit_id@);
        assert(after[b].circuit_id@ == before[b].circuit_id@);
    }
    lemma_find_circuit_at(after, x.circuit_id@, i);
    assert forall|n: Seq<char>| n != x.circuit_id@ implies find_circuit(after, n) == find_circuit(before, n) by {
        if has_circuit(before, n) {
            let j = choose|j: int| circuit_at(before, n, j);
            assert(j != i);
            lemma_find_circuit_at(before, n, j);
            lemma_find_circuit_at(after, n, j);
        } else {
            assert forall|j: int| !circuit_at(after, n, j) by {
                if 0 <= j < after.len() && j != i {
                    assert(!circuit_at(before, n, j));
                }
            }
        }
    }
}

/// The index of the circuit with identifier `id`, if any.
fn circuit_position(v: &Vec<Circuit>, id: &str) -> (r: Option<usize>)
    ensures
        match r {
            Some(i) => circuit_at(v@, id@, i as int),
            None => !has_circuit(v@, id@),
        },
{
    let mut i: usize = 0;
    while i < v.len()
        invariant
            i <= v@.len(),
            forall|j: int| 0 <= j < i ==> v@[j].circuit_id@ != id@,
        decreases v@.len() - i,
    {
        if str_eq(v[i].circuit_id.as_str(), id) {
            return Some(i);
        }
        i = i + 1;
    }
    assert forall|j: int| !circuit_at(v@, id@, j) by {}
    None
}

/// The number of active circuits among the first `n`.
pub open spec fn active_upto(s: Seq<Circuit>, n: int) -> nat
    decreases n,
{
    if n <= 0 {
        0
    } else {
        active_upto(s, n - 1) + if s[n - 1].status is Active { 1nat } else { 0nat }
    }
}

/// The number of active circuits.
pub open spec fn active_count(s: Seq<Circuit>) -> nat {
    active_upto(s, s.len() as int)
}

/// Whether a sweep dissolves circuit `c`: when only expired circuits are
/// swept, an active one expired at `now`; otherwise any active one.
pub open spec fn swept(c: Circuit, expired_only: bool, now: u64) -> bool {
    if expired_only {
        c.status is Active && c.expires_at <= now
    } else {
        c.status is Active
    }
}

/// The dissolution counter and the relayed-byte total after a sweep of the
/// first `n` circuits (both counters wrap as atomic counters do).
pub open spec fn dissolve_counters(s: Seq<Circuit>, expired_only: bool, now: u64, dissolved: u64, bytes: u64, n: int) -> (u64, u64)
    decreases n,
{
    if n <= 0 {
        (dissolved, bytes)
    } else {
        let prev = dissolve_counters(s, expired_only, now, dissolved, bytes, n - 1);
        if swept(s[n - 1], expired_only, now) {
            (wrapping_add(prev.0, 1), wrapping_add(prev.1, s[n - 1].bytes_relayed))
        } else {
            prev
        }
    }
}

/// Whether `after` is `before` with every circuit the sweep takes dissolved
/// and every other left as it was.
pub open spec fn dissolved_where(after: Seq<Circuit>, before: Seq<Circuit>, expired_only: bool, now: u64) -> bool {
    &&& after.len() == before.len()
    &&& forall|i: int| 0 <= i < before.len() ==> #[trigger] after[i] == if swept(before[i], expired_only, now) {
        Circuit { status: CircuitStatus::Dissolved, ..before[i] }
    } else {
        before[i]
    }
}

/// The text a circuit identifier is the digest of: the time, the nonce and
/// the entry relay, joined by dashes.
pub open spec fn circuit_id_text(now: u64, nonce: u64, entry: Seq<char>) -> Seq<char> {
    decimal(now as nat) + "-"@ + decimal(nonce as nat) + "-"@ + entry
}

/// The identifier of a circuit: the lowercase hexadecimal SHA-256 of its
/// identifying text.
pub open spec fn circuit_id_of(now: u64, nonce: u64, entry: Seq<char>) -> Seq<char> {
    hex_lower(sha256_spec(encode_utf8(circuit_id_text(now, nonce, entry))))
}

/// The text an identity is the digest of: the time and two random numbers,
/// joined by dashes.
pub open spec fn identity_text(now: u64, a: u128, b: u64) -> Seq<char> {
    decimal(now as nat) + "-"@ + decimal(a as nat) + "-"@ + decimal(b as nat)
}

/// The digest of an identity's text.
pub open spec fn identity_digest(now: u64, a: u128, b: u64) -> Seq<char> {
    hex_lower(sha256_spec(encode_utf8(identity_text(now, a, b))))
}

/// How long an identity lives: an hour when Tor-compatible, half an hour
/// otherwise.
pub open spec fn identity_ttl(config: GhostProtocolConfig) -> u64 {
    if config.tor_compatible { 3600 } else { 1800 }
}

/// The identities kept after `id` joins `ids`: all of them, or, once more
/// than 256, all but the oldest 128.
pub open spec fn kept_identities(ids: Seq<Identity>, id: Identity) -> Seq<Identity> {
    let all = ids.push(id);
    if all.len() > 256 {
        all.skip(128)
    } else {
        all
    }
}

/// `rand::random::<u64>()`: a random number; nothing is promised of it.
#[verifier::external_body]
fn random_u64() -> (r: u64) {
    rand::random::<u64>()
}

/// A list of `n` random numbers.
fn random_list(n: usize) -> (r: Vec<u64>)
    ensures
        r@.len() == n,
{
    let mut v: Vec<u64> = Vec::new();
    let mut i: usize = 0;
    while i < n
        invariant
            i <= n,
            v@.len() == i,
        decreases n - i,
    {
        v.push(random_u64());
        i = i + 1;
    }
    v
}

/// The lowercase hexadecimal SHA-256 of a text's bytes.
fn text_digest(t: &str) -> (r: String)
    ensures
        r@ == hex_lower(sha256_spec(encode_utf8(t@))),
{
    let d = sha256(t.as_bytes());
    hex_encode(d.as_slice())
}


/// The privacy layer: its settings, its circuits (one per identifier), the
/// recent identities, the relay network, its counters and its modes.
pub struct SovereignGhost {
    config: GhostProtocolConfig,
    circuits: Vec<Circuit>,
    identities: Vec<Identity>,
    relay_nodes: Vec<RelayNode>,
    total_dissolved: u64,
    identities_rotated: u64,
    bytes_relayed_total: u64,
    is_emergency_mode: bool,
    started_at: Instant,
    started: bool,
}

impl SovereignGhost {
    #[verifier::type_invariant]
    closed spec fn inv(&self) -> bool {
        &&& circuits_unique(self.circuits@)
        &&& is_relay_network(self.relay_nodes@)
        &&& self.identities@.len() <= 256
        &&& self.circuits@.len() <= self.config.max_concurrent_circuits
    }

    /// The number of circuits held, dissolved ones included; never more
    /// than the configured maximum.
    pub fn circuit_count(&self) -> (r: usize)
        ensures
            r == self.circuits().len(),
            r <= self.config().max_concurrent_circuits,
    {
        proof {
            use_type_invariant(self);
        }
        self.circuits.len()
    }

    /// The settings.
    pub closed spec fn config(&self) -> GhostProtocolConfig {
        self.config
    }

    /// The circuits, dissolved ones included.
    pub closed spec fn circuits(&self) -> Seq<Circuit> {
        self.circuits@
    }

    /// The identities kept, oldest first.
    pub closed spec fn identities(&self) -> Seq<Identity> {
        self.identities@
    }

    /// The relay network.
    pub closed spec fn relays(&self) -> Seq<RelayNode> {
        self.relay_nodes@
    }

    /// The number of circuits dissolved.
    pub closed spec fn spec_total_dissolved(&self) -> u64 {
        self.total_dissolved
    }

    /// The number of identities generated.
    pub closed spec fn spec_identities_rotated(&self) -> u64 {
        self.identities_rotated
    }

    /// The bytes relayed by dissolved circuits and by relaying.
    pub closed spec fn spec_bytes_total(&self) -> u64 {
        self.bytes_relayed_total
    }

    /// Whether emergency mode is on.
    pub closed spec fn spec_emergency(&self) -> bool {
        self.is_emergency_mode
    }

    /// Whether the layer has started.
    pub closed spec fn spec_started(&self) -> bool {
        self.started
    }

    /// Everything but the circuits is as in `o`.
    pub open spec fn same_but_circuits(&self, o: &SovereignGhost) -> bool {
        &&& self.config() == o.config()
        &&& self.identities() == o.identities()
        &&& self.relays() == o.relays()
        &&& self.spec_identities_rotated() == o.spec_identities_rotated()
        &&& self.spec_emergency() == o.spec_emergency()
        &&& self.spec_started() == o.spec_started()
    }

    /// A layer with the given settings over the relay network: no circuits,
    /// no identities, counters at zero, not started, not in emergency.
    pub fn new(config: GhostProtocolConfig) -> (r: SovereignGhost)
        ensures
            r.config() == config,
            r.circuits().len() == 0,
            r.identities().len() == 0,
            is_relay_network(r.relays()),
            r.spec_total_dissolved() == 0,
            r.spec_identities_rotated() == 0,
            r.spec_bytes_total() == 0,
            !r.spec_emergency(),
            !r.spec_started(),
    {
        SovereignGhost {
            config: config,
            circuits: Vec::new(),
            identities: Vec::new(),
            relay_nodes: build_relay_network(),
            total_dissolved: 0,
            identities_rotated: 0,
            bytes_relayed_total: 0,
            is_emergency_mode: false,
            started_at: instant_now(),
            started: false,
        }
    }

    /// Opens a circuit at time `now`, with the given relay picks, latency
    /// jitters and nonce: refused in emergency mode and once as many
    /// circuits exist (dissolved ones included) as are allowed; otherwise a
    /// guard, then middle relays, then an exit are drawn without repeats,
    /// and the circuit, named by the digest of the time, the nonce and the
    /// entry relay, lives for the configured timeout.
    pub fn create_circuit_with(&mut self, picks: &[u64], jitters: &[u64], nonce: u64, now: u64) -> (r: Result<Circuit, String>)
        requires
            old(self).config().onion_layers >= 1,
            picks@.len() >= old(self).config().onion_layers,
            jitters@.len() >= old(self).config().onion_layers,
            now + old(self).config().circuit_timeout_secs <= u64::MAX,
        ensures
            final(self).same_but_circuits(old(self)),
            final(self).spec_total_dissolved() == old(self).spec_total_dissolved(),
            final(self).spec_bytes_total() == old(self).spec_bytes_total(),
            circuits_unique(final(self).circuits()),
            old(self).spec_emergency() ==> {
                &&& r matches Err(m) && m@ == "Emergency mode active \u{2014} circuit creation blocked"@
                &&& final(self).circuits() == old(self).circuits()
            },
            !old(self).spec_emergency() && old(self).circuits().len() >= old(self).config().max_concurrent_circuits ==> {
                &&& r matches Err(m) && m@ == "Max concurrent circuits ("@ + decimal(old(self).config().max_concurrent_circuits as nat) + ") reached"@
                &&& final(self).circuits() == old(self).circuits()
            },
            !old(self).spec_emergency() && old(self).circuits().len() < old(self).config().max_concurrent_circuits ==> {
                let layers = old(self).config().onion_layers as int;
                match hop_plan(old(self).relays(), layers, picks@, layers) {
                    Err(l) => (r matches Err(m) && m@ == "No suitable relay node for layer "@ + decimal(l as nat))
                        && final(self).circuits() == old(self).circuits(),
                    Ok(idx) => r matches Ok(c) && {
                        &&& c.circuit_id@ == circuit_id_of(now, nonce, old(self).relays()[idx[0] as int].node_id@)
                        &&& c.hops@.len() == layers
                        &&& hops_match(c.hops@, idx, old(self).relays(), jitters@, layers)
                        &&& c.created_at == now
                        &&& c.expires_at == now + old(self).config().circuit_timeout_secs
                        &&& c.bytes_relayed == 0
                        &&& c.status == CircuitStatus::Active
                        &&& find_circuit(final(self).circuits(), c.circuit_id@) matches Some(k) && k.same_as(&c)
                        &&& forall|n: Seq<char>| n != c.circuit_id@ ==> find_circuit(final(self).circuits(), n) == find_circuit(old(self).circuits(), n)
                    },
                }
            },
    {
        proof {
            use_type_invariant(&*self);
        }
        if self.is_emergency_mode {
            return Err(owned("Emergency mode active \u{2014} circuit creation blocked"));
        }
        let max = self.config.max_concurrent_circuits;
        if self.circuits.len() >= max {
            let mut m = owned("Max concurrent circuits (");
            push_decimal(&mut m, max as u64);
            push_str(&mut m, ") reached");
            return Err(m);
        }
        let layers = self.config.onion_layers;
        proof {
            lemma_plan_failure_layer(self.relay_nodes@, layers as int, picks@, layers as int);
        }
        let planned = plan_hops(&self.relay_nodes, layers, picks, jitters);
        match planned {
            Err(l) => {
                let mut m = owned("No suitable relay node for layer ");
                push_decimal(&mut m, l as u64);
                Err(m)
            },
            Ok((idx, hops)) => {
                let mut text = String::new();
                push_decimal(&mut text, now);
                push_str(&mut text, "-");
                push_decimal(&mut text, nonce);
                push_str(&mut text, "-");
                push_str(&mut text, hops[0].node_id.as_str());
                proof {
                    assert(is_hop(hops@[0], self.relay_nodes@[idx@[0] as int], jitters@[0], 0));
                    assert(text@ =~= circuit_id_text(now, nonce, self.relay_nodes@[idx@[0] as int].node_id@));
                }
                let circuit_id = text_digest(text.as_str());
                let circuit = Circuit {
                    circuit_id: circuit_id,
                    hops: hops,
                    created_at: now,
                    expires_at: now + self.config.circuit_timeout_secs,
                    bytes_relayed: 0,
                    status: CircuitStatus::Active,
                };
                let kept = circuit.duplicate();
                let mut v: Vec<Circuit> = Vec::new();
                std::mem::swap(&mut v, &mut self.circuits);
                let ghost before = v@;
                let ghost id = kept.circuit_id@;
                match circuit_position(&v, kept.circuit_id.as_str()) {
                    Some(i) => {
                        let _replaced = v.remove(i);
                        v.insert(i, kept);
                        proof {
                            assert(v@ =~= before.update(i as int, v@[i as int]));
                            lemma_replace_circuit(before, v@, i as int, v@[i as int]);
                        }
                    },
                    None => {
                        v.push(kept);
                        proof {
                            assert(v@.drop_last() =~= before);
                            assert forall|a: int, b: int| 0 <= a < b < v@.len() implies v@[a].circuit_id@ != v@[b].circuit_id@ by {
                                if b == before.len() {
                                    assert(!circuit_at(before, id, a));
                                }
                            }
                            lemma_find_circuit_at(v@, id, before.len() as int);
                            assert forall|n: Seq<char>| n != id implies find_circuit(v@, n) == find_circuit(before, n) by {
                                if has_circuit(before, n) {
                                    let j = choose|j: int| circuit_at(before, n, j);
                                    lemma_find_circuit_at(before, n, j);
                                    lemma_find_circuit_at(v@, n, j);
                                } else {
                                    assert forall|j: int| !circuit_at(v@, n, j) by {
                                        if 0 <= j < before.len() {
                                            assert(!circuit_at(before, n, j));
                                        }
                                    }
                                }
                            }
                        }
                    },
                }
                self.circuits = v;
                Ok(circuit)
            },
        }
    }

    /// Opens a circuit now, with random relay picks, jitters and nonce.
    pub fn create_circuit(&mut self) -> (r: Result<Circuit, String>)
        requires
            old(self).config().onion_layers >= 1,
            old(self).config().circuit_timeout_secs <= u64::MAX - 18_446_744_073,
        ensures
            final(self).same_but_circuits(old(self)),
            circuits_unique(final(self).circuits()),
            old(self).spec_emergency() ==> {
                &&& r matches Err(m) && m@ == "Emergency mode active \u{2014} circuit creation blocked"@
                &&& final(self).circuits() == old(self).circuits()
            },
            !old(self).spec_emergency() && old(self).circuits().len() >= old(self).config().max_concurrent_circuits ==> {
                &&& r matches Err(m) && m@ == "Max concurrent circuits ("@ + decimal(old(self).config().max_concurrent_circuits as nat) + ") reached"@
                &&& final(self).circuits() == old(self).circuits()
            },
            !old(self).spec_emergency() && old(self).circuits().len() < old(self).config().max_concurrent_circuits
                && (forall|p: Seq<u64>| p.len() >= old(self).config().onion_layers ==>
                    (#[trigger] hop_plan(old(self).relays(), old(self).config().onion_layers as int, p, old(self).config().onion_layers as int)) is Ok)
                ==> r is Ok,
            r matches Ok(c) ==> (c.status == CircuitStatus::Active && c.bytes_relayed == 0
                && c.hops@.len() == old(self).config().onion_layers
                && c.expires_at == c.created_at + old(self).config().circuit_timeout_secs
                && (find_circuit(final(self).circuits(), c.circuit_id@) matches Some(k) && k.same_as(&c))),
    {
        let layers = self.config.onion_layers;
        let picks = random_list(layers);
        let jitters = random_list(layers);
        let nonce = random_u64();
        let now = unix_secs();
        self.create_circuit_with(picks.as_slice(), jitters.as_slice(), nonce, now)
    }

    /// Dissolves the circuit with that identifier, counting it and adding
    /// the bytes it relayed to the total; a dissolved circuit cannot be
    /// dissolved again.
    pub fn dissolve_circuit(&mut self, circuit_id: &str) -> (r: Result<(), String>)
        ensures
            final(self).same_but_circuits(old(self)),
            circuits_unique(final(self).circuits()),
            match find_circuit(old(self).circuits(), circuit_id@) {
                None => (r matches Err(m) && m@ == "Circuit "@ + circuit_id@ + " not found"@)
                    && final(self).circuits() == old(self).circuits()
                    && final(self).spec_total_dissolved() == old(self).spec_total_dissolved()
                    && final(self).spec_bytes_total() == old(self).spec_bytes_total(),
                Some(c) => if c.status is Dissolved {
                    (r matches Err(m) && m@ == "Circuit "@ + circuit_id@ + " already dissolved"@)
                        && final(self).circuits() == old(self).circuits()
                        && final(self).spec_total_dissolved() == old(self).spec_total_dissolved()
                        && final(self).spec_bytes_total() == old(self).spec_bytes_total()
                } else {
                    &&& r is Ok
                    &&& find_circuit(final(self).circuits(), circuit_id@) == Some(Circuit { status: CircuitStatus::Dissolved, ..c })
                    &&& forall|n: Seq<char>| n != circuit_id@ ==> find_circuit(final(self).circuits(), n) == find_circuit(old(self).circuits(), n)
                    &&& final(self).spec_total_dissolved() == wrapping_add(old(self).spec_total_dissolved(), 1)
                    &&& final(self).spec_bytes_total() == wrapping_add(old(self).spec_bytes_total(), c.bytes_relayed)
                },
            },
    {
        proof {
            use_type_invariant(&*self);
        }
        match circuit_position(&self.circuits, circuit_id) {
            None => {
                let mut m = owned("Circuit ");
                push_str(&mut m, circuit_id);
                push_str(&mut m, " not found");
                Err(m)
            },
            Some(i) => {
                proof {
                    lemma_find_circuit_at(self.circuits@, circuit_id@, i as int);
                }
                if self.circuits[i].status == CircuitStatus::Dissolved {
                    let mut m = owned("Circuit ");
                    push_str(&mut m, circuit_id);
                    push_str(&mut m, " already dissolved");
                    return Err(m);
                }
                let mut v: Vec<Circuit> = Vec::new();
                std::mem::swap(&mut v, &mut self.circuits);
                let ghost before = v@;
                let mut c = v.remove(i);
                c.status = CircuitStatus::Dissolved;
                let bytes = c.bytes_relayed;
                v.insert(i, c);
                proof {
                    assert(v@ =~= before.update(i as int, v@[i as int]));
                    lemma_replace_circuit(before, v@, i as int, v@[i as int]);
                }
                self.circuits = v;
                self.bytes_relayed_total = self.bytes_relayed_total.wrapping_add(bytes);
                self.total_dissolved = self.total_dissolved.wrapping_add(1);
                Ok(())
            },
        }
    }

    /// Dissolves, in place, every circuit that `selected` picks, counting
    /// each and adding the bytes it relayed.
    fn dissolve_selected(&mut self, now: u64, expired_only: bool)
        ensures
            final(self).same_but_circuits(old(self)),
            circuits_unique(final(self).circuits()),
            dissolved_where(final(self).circuits(), old(self).circuits(), expired_only, now),
            (final(self).spec_total_dissolved(), final(self).spec_bytes_total()) == dissolve_counters(
                old(self).circuits(),
                expired_only,
                now,
                old(self).spec_total_dissolved(),
                old(self).spec_bytes_total(),
                old(self).circuits().len() as int,
            ),
    {
        proof {
            use_type_invariant(&*self);
        }
        let mut v: Vec<Circuit> = Vec::new();
        std::mem::swap(&mut v, &mut self.circuits);
        let ghost before = v@;
        let mut dissolved = self.total_dissolved;
        let mut bytes_total = self.bytes_relayed_total;
        let mut i: usize = 0;
        while i < v.len()
            invariant
                v@.len() == before.len(),
                i <= v@.len(),
                circuits_unique(before),
                forall|j: int| 0 <= j < i ==> #[trigger] v@[j] == if swept(before[j], expired_only, now) {
                    Circuit { status: CircuitStatus::Dissolved, ..before[j] }
                } else {
                    before[j]
                },
                forall|j: int| i <= j < v@.len() ==> #[trigger] v@[j] == before[j],
                (dissolved, bytes_total) == dissolve_counters(before, expired_only, now, old(self).total_dissolved, old(self).bytes_relayed_total, i as int),
            decreases v@.len() - i,
        {
            let ghost mid = v@;
            let active = v[i].status == CircuitStatus::Active;
            let picked = if expired_only { active && v[i].expires_at <= now } else { active };
            if picked {
                let mut c = v.remove(i);
                c.status = CircuitStatus::Dissolved;
                bytes_total = bytes_total.wrapping_add(c.bytes_relayed);
                dissolved = dissolved.wrapping_add(1);
                v.insert(i, c);
                proof {
                    assert(v@ =~= mid.update(i as int, v@[i as int]));
                }
            }
            proof {
                assert(swept(before[i as int], expired_only, now) == picked);
            }
            i = i + 1;
        }
        proof {
            assert forall|a: int, b: int| 0 <= a < b < v@.len() implies v@[a].circuit_id@ != v@[b].circuit_id@ by {
                assert(v@[a].circuit_id@ == before[a].circuit_id@);
                assert(v@[b].circuit_id@ == before[b].circuit_id@);
            }
        }
        self.circuits = v;
        self.total_dissolved = dissolved;
        self.bytes_relayed_total = bytes_total;
    }

    /// Turns emergency mode on and dissolves every active circuit.
    pub fn emergency_dissolve_all(&mut self) -> (r: Result<(), String>)
        ensures
            r is Ok,
            final(self).spec_emergency(),
            final(self).config() == old(self).config(),
            final(self).identities() == old(self).identities(),
            final(self).relays() == old(self).relays(),
            final(self).spec_identities_rotated() == old(self).spec_identities_rotated(),
            final(self).spec_started() == old(self).spec_started(),
            circuits_unique(final(self).circuits()),
            dissolved_where(final(self).circuits(), old(self).circuits(), false, 0),
            active_count(final(self).circuits()) == 0,
            (final(self).spec_total_dissolved(), final(self).spec_bytes_total()) == dissolve_counters(
                old(self).circuits(),
                false,
                0,
                old(self).spec_total_dissolved(),
                old(self).spec_bytes_total(),
                old(self).circuits().len() as int,
            ),
    {
        proof {
            use_type_invariant(&*self);
        }
        self.is_emergency_mode = true;
        self.dissolve_selected(0, false);
        proof {
            lemma_none_active(self.circuits@, old(self).circuits@);
        }
        Ok(())
    }

    /// Dissolves every active circuit that has expired at time `now`.
    pub fn check_expired_circuits_at(&mut self, now: u64)
        ensures
            final(self).same_but_circuits(old(self)),
            circuits_unique(final(self).circuits()),
            dissolved_where(final(self).circuits(), old(self).circuits(), true, now),
            (final(self).spec_total_dissolved(), final(self).spec_bytes_total()) == dissolve_counters(
                old(self).circuits(),
                true,
                now,
                old(self).spec_total_dissolved(),
                old(self).spec_bytes_total(),
                old(self).circuits().len() as int,
            ),
    {
        self.dissolve_selected(now, true);
    }

    /// Dissolves every active circuit that has expired now.
    pub fn check_expired_circuits(&mut self)
        ensures
            final(self).same_but_circuits(old(self)),
            circuits_unique(final(self).circuits()),
            exists|now: u64| #[trigger] expired_sweep(final(self).circuits(), old(self).circuits(), now),
    {
        let now = unix_secs();
        self.check_expired_circuits_at(now);
        assert(expired_sweep(self.circuits(), old(self).circuits(), now));
    }
}

impl SovereignGhost {
    /// Relays `bytes` over an active circuit: the circuit and the total
    /// count them, and with padding on a quarter as much again of cover
    /// traffic; the circuit's new count is returned. Refused in emergency
    /// mode and for a circuit that is unknown or not active.
    pub fn relay_traffic(&mut self, circuit_id: &str, bytes: u64) -> (r: Result<u64, String>)
        requires
            find_circuit(old(self).circuits(), circuit_id@) matches Some(c)
                ==> (c.status is Active ==> c.bytes_relayed + bytes + bytes / 4 <= u64::MAX),
        ensures
            final(self).same_but_circuits(old(self)),
            circuits_unique(final(self).circuits()),
            final(self).spec_total_dissolved() == old(self).spec_total_dissolved(),
            old(self).spec_emergency() ==> {
                &&& r matches Err(m) && m@ == "Emergency mode active \u{2014} relay blocked"@
                &&& final(self).circuits() == old(self).circuits()
                &&& final(self).spec_bytes_total() == old(self).spec_bytes_total()
            },
            !old(self).spec_emergency() ==> match find_circuit(old(self).circuits(), circuit_id@) {
                Some(c) if c.status is Active => {
                    let padding: u64 = if old(self).config().padding_enabled { bytes / 4 } else { 0 };
                    let relayed = (c.bytes_relayed + bytes + padding) as u64;
                    &&& r == Ok::<u64, String>(relayed)
                    &&& find_circuit(final(self).circuits(), circuit_id@) == Some(Circuit { bytes_relayed: relayed, ..c })
                    &&& forall|n: Seq<char>| n != circuit_id@ ==> find_circuit(final(self).circuits(), n) == find_circuit(old(self).circuits(), n)
                    &&& final(self).spec_bytes_total() == wrapping_add(wrapping_add(old(self).spec_bytes_total(), bytes), padding)
                },
                _ => {
                    &&& r matches Err(m) && m@ == "Circuit "@ + circuit_id@ + " not found or not active"@
                    &&& final(self).circuits() == old(self).circuits()
                    &&& final(self).spec_bytes_total() == old(self).spec_bytes_total()
                },
            },
    {
        proof {
            use_type_invariant(&*self);
        }
        if self.is_emergency_mode {
            return Err(owned("Emergency mode active \u{2014} relay blocked"));
        }
        let pos = circuit_position(&self.circuits, circuit_id);
        let found = match pos {
            Some(i) => self.circuits[i].status == CircuitStatus::Active,
            None => false,
        };
        if !found {
            proof {
                if let Some(i) = pos {
                    lemma_find_circuit_at(self.circuits@, circuit_id@, i as int);
                }
            }
            let mut m = owned("Circuit ");
            push_str(&mut m, circuit_id);
            push_str(&mut m, " not found or not active");
            return Err(m);
        }
        let i = match pos {
            Some(i) => i,
            None => 0,
        };
        proof {
            lemma_find_circuit_at(self.circuits@, circuit_id@, i as int);
        }
        let padding: u64 = if self.config.padding_enabled { bytes / 4 } else { 0 };
        let mut v: Vec<Circuit> = Vec::new();
        std::mem::swap(&mut v, &mut self.circuits);
        let ghost before = v@;
        let mut c = v.remove(i);
        c.bytes_relayed = c.bytes_relayed + bytes + padding;
        let relayed = c.bytes_relayed;
        v.insert(i, c);
        proof {
            assert(v@ =~= before.update(i as int, v@[i as int]));
            lemma_replace_circuit(before, v@, i as int, v@[i as int]);
        }
        self.circuits = v;
        self.bytes_relayed_total = self.bytes_relayed_total.wrapping_add(bytes);
        self.bytes_relayed_total = self.bytes_relayed_total.wrapping_add(padding);
        Ok(relayed)
    }

    /// What the layer reports, with the uptime given.
    pub fn get_status_at(&self, uptime_secs: u64) -> (r: GhostStatus)
        ensures
            r.active_circuits == active_count(self.circuits()),
            r.total_dissolved == self.spec_total_dissolved(),
            r.identities_rotated == self.spec_identities_rotated(),
            r.uptime_secs == uptime_secs,
            r.is_emergency_mode == self.spec_emergency(),
            r.bytes_relayed_total == self.spec_bytes_total(),
    {
        let mut active: usize = 0;
        let mut i: usize = 0;
        while i < self.circuits.len()
            invariant
                i <= self.circuits@.len(),
                active == active_upto(self.circuits@, i as int),
                active <= i,
            decreases self.circuits@.len() - i,
        {
            if self.circuits[i].status == CircuitStatus::Active {
                active = active + 1;
            }
            i = i + 1;
        }
        GhostStatus {
            active_circuits: active,
            total_dissolved: self.total_dissolved,
            identities_rotated: self.identities_rotated,
            uptime_secs: uptime_secs,
            is_emergency_mode: self.is_emergency_mode,
            bytes_relayed_total: self.bytes_relayed_total,
        }
    }

    /// What the layer reports now.
    pub fn get_status(&self) -> (r: GhostStatus)
        ensures
            r.active_circuits == active_count(self.circuits()),
            r.total_dissolved == self.spec_total_dissolved(),
            r.identities_rotated == self.spec_identities_rotated(),
            r.is_emergency_mode == self.spec_emergency(),
            r.bytes_relayed_total == self.spec_bytes_total(),
    {
        let uptime = secs_since(&self.started_at);
        self.get_status_at(uptime)
    }

    /// Generates a temporary identity at time `now` from two random numbers:
    /// named `ghost-id-` and the digest of the time and the numbers, living
    /// for the identity lifetime; the list of identities keeps the most
    /// recent ones.
    pub fn rotate_identity_at(&mut self, now: u64, a: u128, b: u64) -> (r: Identity)
        requires
            now + 3600 <= u64::MAX,
        ensures
            r.temp_id@ == "ghost-id-"@ + identity_digest(now, a, b),
            r.key_material_hash@ == identity_digest(now, a, b),
            r.created_at == now,
            r.expires_at == now + identity_ttl(old(self).config()),
            final(self).identities().len() == kept_identities(old(self).identities(), r).len(),
            final(self).identities().last() == r,
            final(self).spec_identities_rotated() == wrapping_add(old(self).spec_identities_rotated(), 1),
            final(self).config() == old(self).config(),
            final(self).circuits() == old(self).circuits(),
            final(self).relays() == old(self).relays(),
            final(self).spec_total_dissolved() == old(self).spec_total_dissolved(),
            final(self).spec_bytes_total() == old(self).spec_bytes_total(),
            final(self).spec_emergency() == old(self).spec_emergency(),
            final(self).spec_started() == old(self).spec_started(),
    {
        proof {
            use_type_invariant(&*self);
        }
        let ttl: u64 = if self.config.tor_compatible { 3600 } else { 1800 };
        let mut text = String::new();
        push_decimal(&mut text, now);
        push_str(&mut text, "-");
        push_decimal_u128(&mut text, a);
        push_str(&mut text, "-");
        push_decimal(&mut text, b);
        assert(text@ =~= identity_text(now, a, b));
        let digest = text_digest(text.as_str());
        let mut temp_id = owned("ghost-id-");
        push_str(&mut temp_id, digest.as_str());
        let identity = Identity {
            temp_id: temp_id,
            created_at: now,
            expires_at: now + ttl,
            key_material_hash: digest,
        };
        let kept = Identity {
            temp_id: identity.temp_id.clone(),
            created_at: identity.created_at,
            expires_at: identity.expires_at,
            key_material_hash: identity.key_material_hash.clone(),
        };
        let mut ids: Vec<Identity> = Vec::new();
        std::mem::swap(&mut ids, &mut self.identities);
        ids.push(kept);
        if ids.len() > 256 {
            let mut rest: Vec<Identity> = Vec::new();
            let mut j: usize = 128;
            let ghost all = ids@;
            while j < ids.len()
                invariant
                    128 <= j <= ids@.len(),
                    ids@ == all,
                    rest@ == all.subrange(128, j as int),
                decreases ids@.len() - j,
            {
                let x = Identity {
                    temp_id: ids[j].temp_id.clone(),
                    created_at: ids[j].created_at,
                    expires_at: ids[j].expires_at,
                    key_material_hash: ids[j].key_material_hash.clone(),
                };
                rest.push(x);
                assert(rest@ =~= all.subrange(128, j + 1));
                j = j + 1;
            }
            ids = rest;
        }
        self.identities = ids;
        self.identities_rotated = self.identities_rotated.wrapping_add(1);
        identity
    }

    /// Generates a temporary identity now.
    pub fn rotate_identity(&mut self) -> (r: Identity)
        ensures
            r.temp_id@ == "ghost-id-"@ + r.key_material_hash@,
            r.expires_at == r.created_at + identity_ttl(old(self).config()),
            final(self).identities().last() == r,
            final(self).spec_identities_rotated() == wrapping_add(old(self).spec_identities_rotated(), 1),
            final(self).config() == old(self).config(),
            final(self).circuits() == old(self).circuits(),
            final(self).spec_emergency() == old(self).spec_emergency(),
            final(self).spec_started() == old(self).spec_started(),
    {
        let now = unix_secs();
        let hi = random_u64();
        let lo = random_u64();
        let a: u128 = (hi as u128) * 18_446_744_073_709_551_616u128 + lo as u128;
        let b = random_u64();
        self.rotate_identity_at(now, a, b)
    }

    /// Starts the layer at time `now`, generating its first identity from
    /// two random numbers; a layer starts once.
    pub fn start_at(&mut self, now: u64, a: u128, b: u64) -> (r: Result<(), String>)
        requires
            now + 3600 <= u64::MAX,
        ensures
            old(self).spec_started() ==> (r matches Err(m) && m@ == "SovereignGhost already started"@)
                && final(self).identities() == old(self).identities()
                && final(self).spec_identities_rotated() == old(self).spec_identities_rotated(),
            !old(self).spec_started() ==> r is Ok && final(self).spec_started()
                && final(self).identities().last().temp_id@ == "ghost-id-"@ + identity_digest(now, a, b)
                && final(self).spec_identities_rotated() == wrapping_add(old(self).spec_identities_rotated(), 1),
            final(self).config() == old(self).config(),
            final(self).circuits() == old(self).circuits(),
            final(self).spec_emergency() == old(self).spec_emergency(),
            final(self).spec_total_dissolved() == old(self).spec_total_dissolved(),
            final(self).spec_bytes_total() == old(self).spec_bytes_total(),
    {
        proof {
            use_type_invariant(&*self);
        }
        if self.started {
            return Err(owned("SovereignGhost already started"));
        }
        self.started = true;
        let _identity = self.rotate_identity_at(now, a, b);
        Ok(())
    }

    /// Starts the layer now.
    pub fn start(&mut self) -> (r: Result<(), String>)
        ensures
            old(self).spec_started() ==> r is Err && final(self).identities() == old(self).identities(),
            !old(self).spec_started() ==> r is Ok && final(self).spec_started(),
            final(self).circuits() == old(self).circuits(),
            final(self).spec_emergency() == old(self).spec_emergency(),
    {
        let now = unix_secs();
        let hi = random_u64();
        let lo = random_u64();
        let a: u128 = (hi as u128) * 18_446_744_073_709_551_616u128 + lo as u128;
        let b = random_u64();
        self.start_at(now, a, b)
    }

    /// Wraps a payload for a circuit at `now_ms`, with one random nonce and
    /// one random padding draw per hop: one layer per hop, keyed by the
    /// digest of the circuit, the layer and its nonce, padded with 512 to
    /// 639 bytes when padding is on, the payload riding in the last layer.
    pub fn create_onion_packet_with(&self, circuit: &Circuit, payload: &[u8], nonces: &[u64], pads: &[u64], now_ms: u64) -> (r: Result<OnionPacket, String>)
        requires
            nonces@.len() >= circuit.hops@.len(),
            pads@.len() >= circuit.hops@.len(),
        ensures
            r matches Ok(p) && {
                &&& p.circuit_id@ == circuit.circuit_id@
                &&& p.payload_hash@ == hex_lower(sha256_spec(payload@))
                &&& p.entry_timestamp == now_ms
                &&& p.layers@.len() == circuit.hops@.len()
                &&& forall|i: int| 0 <= i < p.layers@.len() ==> #[trigger] is_layer(p.layers@[i], circuit, i, nonces@[i], pads@[i],
                    self.config().padding_enabled, payload@)
            },
    {
        let n = circuit.hops.len();
        let padding = self.config.padding_enabled;
        let mut layers: Vec<EncryptedLayer> = Vec::new();
        let mut i: usize = 0;
        while i < n
            invariant
                n == circuit.hops@.len(),
                nonces@.len() >= n,
                pads@.len() >= n,
                padding == self.config().padding_enabled,
                i <= n,
                layers@.len() == i,
                forall|j: int| 0 <= j < i ==> #[trigger] is_layer(layers@[j], circuit, j, nonces@[j], pads@[j], padding, payload@),
            decreases n - i,
        {
            let mut text = circuit.circuit_id.clone();
            push_str(&mut text, "-");
            push_decimal(&mut text, i as u64);
            push_str(&mut text, "-");
            push_decimal(&mut text, nonces[i]);
            assert(text@ =~= layer_key_text(circuit.circuit_id@, i as int, nonces@[i as int]));
            let key = text_digest(text.as_str());
            let pad: usize = if padding { (512 + pads[i] % 128) as usize } else { 0 };
            let data: Vec<u8> = if i == n - 1 { vstd::slice::slice_to_vec(payload) } else { Vec::new() };
            layers.push(EncryptedLayer { layer_index: i, encrypted_key: key, relay_data: data, padding_bytes: pad });
            i = i + 1;
        }
        let hash = sha256(payload);
        Ok(OnionPacket {
            layers: layers,
            payload_hash: hex_encode(hash.as_slice()),
            circuit_id: circuit.circuit_id.clone(),
            entry_timestamp: now_ms,
        })
    }
}

/// The text a layer key is the digest of: the circuit, the layer and its
/// nonce, joined by dashes.
pub open spec fn layer_key_text(circuit_id: Seq<char>, i: int, nonce: u64) -> Seq<char> {
    circuit_id + "-"@ + decimal(i as nat) + "-"@ + decimal(nonce as nat)
}

/// Whether `l` is layer `i` of a packet for `circuit`.
pub open spec fn is_layer(l: EncryptedLayer, circuit: &Circuit, i: int, nonce: u64, pad: u64, padding: bool, payload: Seq<u8>) -> bool {
    &&& l.layer_index == i
    &&& l.encrypted_key@ == hex_lower(sha256_spec(encode_utf8(layer_key_text(circuit.circuit_id@, i, nonce))))
    &&& l.padding_bytes == if padding { 512 + pad % 128 } else { 0 }
    &&& l.relay_data@ == if i == circuit.hops@.len() - 1 { payload } else { Seq::empty() }
}

/// Whether `after` is `before` with the circuits expired at `now`
/// dissolved.
pub open spec fn expired_sweep(after: Seq<Circuit>, before: Seq<Circuit>, now: u64) -> bool {
    dissolved_where(after, before, true, now)
}

/// After every active circuit is dissolved, none is active.
proof fn lemma_none_active(after: Seq<Circuit>, before: Seq<Circuit>)
    requires
        dissolved_where(after, before, false, 0),
    ensures
        active_count(after) == 0,
{
    assert forall|n: int| 0 <= n <= after.len() implies active_upto(after, n) == 0 by {
        lemma_no_active_prefix(after, before, n);
    }
}

/// No circuit among the first `n` is active once all active ones are
/// dissolved.
proof fn lemma_no_active_prefix(after: Seq<Circuit>, before: Seq<Circuit>, n: int)
    requires
        dissolved_where(after, before, false, 0),
        0 <= n <= after.len(),
    ensures
        active_upto(after, n) == 0,
    decreases n,
{
    if n > 0 {
        lemma_no_active_prefix(after, before, n - 1);
        assert(after[n - 1] == if swept(before[n - 1], false, 0) {
            Circuit { status: CircuitStatus::Dissolved, ..before[n - 1] }
        } else {
            before[n - 1]
        });
    }
}

} // verus!
