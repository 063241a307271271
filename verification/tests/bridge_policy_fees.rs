use sha2::{Digest, Sha256};
use the_bridge::policy_dsl::{
    aot_code, compiled_code, execute_wasm, Policy, PolicyConfig, PolicyDSLCompiler, PolicyDecision, PolicyLanguage,
    PolicyStats,
};
use the_bridge::triangular_fee_network::{enabled_fee_bps, is_simulated_route, TriangularFeeConfig};
use the_bridge::universal_bridge::{hash_key, Capability, ProjectStatus, UniversalBridge};

fn sha(data: &[u8]) -> Vec<u8> {
    Sha256::digest(data).to_vec()
}

fn hex(b: &[u8]) -> String {
    b.iter().map(|x| format!("{:02x}", x)).collect()
}

#[test]
fn key_digest_is_hex_sha256() {
    assert_eq!(hash_key("secret"), hex(&sha(b"secret")));
    assert_eq!(hash_key("secret").len(), 64);
}

#[test]
fn registry_reads_back_what_was_registered() {
    let mut b = UniversalBridge::new();
    assert_eq!(b.project_count(), 0);
    b.register_project_at("alpha", "http://a", "k1", vec![Capability::ReceiveOrders], "first", 100);
    b.register_project_at("beta", "http://b", "k2", vec![Capability::SendData], "second", 200);
    assert_eq!(b.project_count(), 2);

    let a = b.get_project("alpha").unwrap();
    assert_eq!(a.name, "alpha");
    assert_eq!(a.endpoint_url, "http://a");
    assert_eq!(a.auth_key_hmac, hash_key("k1"));
    assert_eq!(a.capabilities, vec![Capability::ReceiveOrders]);
    assert_eq!(a.status, ProjectStatus::Offline);
    assert_eq!(a.added_at, 100);
    assert_eq!(a.last_seen, 100);
    assert_eq!(a.total_routed, 0);
    assert_eq!(a.description, "first");

    // registering again under the same name replaces the record
    b.register_project_at("alpha", "http://a2", "k3", vec![], "again", 300);
    assert_eq!(b.project_count(), 2);
    assert_eq!(b.get_project("alpha").unwrap().endpoint_url, "http://a2");
    assert_eq!(b.get_project("beta").unwrap().added_at, 200);

    assert!(b.remove_project("alpha"));
    assert!(!b.remove_project("alpha"));
    assert!(b.get_project("alpha").is_none());
    assert_eq!(b.project_count(), 1);
    assert_eq!(b.list_projects().len(), 1);
}

#[test]
fn broadcast_reaches_capable_projects() {
    let mut b = UniversalBridge::new();
    b.register_project_at("a", "u", "k", vec![Capability::ReceiveOrders, Capability::SendData], "", 0);
    b.register_project_at("b", "u", "k", vec![Capability::SendData], "", 0);
    b.register_project_at("c", "u", "k", vec![Capability::ReceiveOrders], "", 0);
    assert_eq!(b.broadcast_targets(Some(Capability::ReceiveOrders)), vec!["a", "c"]);
    assert_eq!(b.broadcast_targets(None), vec!["a", "b", "c"]);
    assert!(b.broadcast_targets(Some(Capability::Bidirectional)).is_empty());
}

#[test]
fn status_and_forward_counters() {
    let mut b = UniversalBridge::new();
    b.register_project_at("a", "u", "k", vec![], "", 0);
    b.mark_online_at("a", 50);
    let p = b.get_project("a").unwrap();
    assert_eq!(p.status, ProjectStatus::Online);
    assert_eq!(p.last_seen, 50);
    b.mark_offline("a");
    assert_eq!(b.get_project("a").unwrap().status, ProjectStatus::Offline);
    b.record_forward_at("a", 70);
    let p = b.get_project("a").unwrap();
    assert_eq!(p.total_routed, 1);
    assert_eq!(p.status, ProjectStatus::Online);
    assert_eq!(p.last_seen, 70);
    assert_eq!(b.total_forwarded(), 1);
    b.record_error();
    assert_eq!(b.total_errors(), 1);
    // an unknown name changes no record
    b.mark_online_at("zzz", 1);
    assert_eq!(b.project_count(), 1);
}

fn policy(id: &str, language: PolicyLanguage, source: &str, active: bool) -> Policy {
    Policy {
        policy_id: id.to_string(),
        name: format!("{} name", id),
        description: String::new(),
        language,
        source: source.to_string(),
        compiled_wasm: None,
        aot_compiled: None,
        version: 0,
        created_at: 1,
        updated_at: 1,
        active,
        direction: "outbound".to_string(),
        priority: 1,
        tags: vec![],
        dependencies: vec![],
        gas_used: 0,
        memory_used: 0,
        compile_time_ms: 0,
        metadata: vec![],
    }
}

#[test]
fn policy_config_defaults() {
    let c = PolicyConfig::default();
    assert_eq!(c.max_policies, 10_000);
    assert_eq!(c.wasm_target, "wasm32-wasip1");
    assert_eq!(c.max_wasm_size, 10 * 1024 * 1024);
    assert_eq!(c.gas_limit, 1_000_000);
    assert_eq!(c.memory_limit, 16 * 1024 * 1024);
    assert!(c.enable_aot && c.enable_hot_reload && !c.enable_debug);
}

#[test]
fn compiled_code_digests() {
    assert_eq!(compiled_code(PolicyLanguage::Rust, "src", "tgt"), sha(b"srctgtrust_wasm_v2"));
    assert_eq!(compiled_code(PolicyLanguage::Rego, "src", "tgt"), sha(b"srcrego_wasm_v2"));
    assert_eq!(compiled_code(PolicyLanguage::DSL, "s", "t"), sha(b"sdsl_wasm_v2"));
    assert_eq!(compiled_code(PolicyLanguage::TypeScript, "s", "t"), sha(b"sts_wasm_v1"));
    assert_eq!(compiled_code(PolicyLanguage::Python, "s", "t"), sha(b"spy_wasm_v1"));
    assert_eq!(aot_code(b"w"), sha(b"waot_v1"));
}

#[test]
fn evaluation_decision_from_digest() {
    let c = PolicyConfig::default();
    let r = execute_wasm(b"code", b"input", &c);
    let expected = match sha(b"codeinput")[0] % 4 {
        0 => PolicyDecision::Allow,
        1 => PolicyDecision::Deny,
        2 => PolicyDecision::RequireReview,
        _ => PolicyDecision::Modify,
    };
    assert_eq!(r.decision, expected);
    assert_eq!(r.policy_id, "simulated");
    assert_eq!(r.gas_used, 250_000);
    assert_eq!(r.memory_used, 8 * 1024 * 1024);
    assert_eq!(r.execution_time_ns, 100_000);
    assert_eq!(r.logs, vec!["WASM executed"]);
    assert!(r.error.is_none());
}

#[test]
fn stats_running_mean() {
    let mut s = PolicyStats::zero();
    s.record_evaluation(10, 100);
    s.record_evaluation(10, 200);
    s.record_evaluation(5, 0);
    assert_eq!(s.total_evaluations, 3);
    assert_eq!(s.total_gas_used, 25);
    assert_eq!(s.avg_evaluation_time_ns, 100);
}

#[test]
fn register_update_deactivate_evaluate() {
    let mut c = PolicyDSLCompiler::new(PolicyConfig::default());
    assert!(!c.is_running());
    c.start().unwrap();
    assert!(c.is_running());

    c.register_policy(policy("p1", PolicyLanguage::Rust, "allow all", true), 10, 3).unwrap();
    let p = c.get_policy("p1").unwrap();
    assert_eq!(p.version, 1);
    assert_eq!(p.updated_at, 10);
    assert_eq!(p.compile_time_ms, 3);
    let wasm = sha(b"allow allwasm32-wasip1rust_wasm_v2");
    assert_eq!(p.compiled_wasm, Some(wasm.clone()));
    let mut aot_in = wasm.clone();
    aot_in.extend_from_slice(b"aot_v1");
    assert_eq!(p.aot_compiled, Some(sha(&aot_in)));
    let st = c.get_stats();
    assert_eq!(st.total_policies, 1);
    assert_eq!(st.active_policies, 1);
    assert_eq!(st.compiled_policies, 1);
    assert_eq!(st.aot_compiled, 1);

    let r = c.evaluate("p1", b"trade", 1_000).unwrap();
    let mut input = wasm.clone();
    input.extend_from_slice(b"trade");
    let expected = match sha(&input)[0] % 4 {
        0 => PolicyDecision::Allow,
        1 => PolicyDecision::Deny,
        2 => PolicyDecision::RequireReview,
        _ => PolicyDecision::Modify,
    };
    assert_eq!(r.decision, expected);
    assert_eq!(c.get_stats().total_evaluations, 1);
    assert_eq!(c.get_stats().avg_evaluation_time_ns, 1_000);

    // an update takes the version after the registered one, then compiles
    c.update_policy(policy("p1", PolicyLanguage::Rego, "deny", true), 20, 1).unwrap();
    let p = c.get_policy("p1").unwrap();
    assert_eq!(p.version, 3);
    assert_eq!(p.created_at, 1);
    assert_eq!(p.compiled_wasm, Some(sha(b"denyrego_wasm_v2")));
    assert_eq!(c.update_policy(policy("nope", PolicyLanguage::DSL, "", true), 0, 0).unwrap_err(), "policy not found");

    c.deactivate_policy("p1").unwrap();
    assert!(!c.get_policy("p1").unwrap().active);
    assert_eq!(c.get_stats().active_policies, 0);
    assert_eq!(c.evaluate("p1", b"x", 0).unwrap_err(), "policy not active");
    assert_eq!(c.evaluate("zz", b"x", 0).unwrap_err(), "policy not found");
    assert_eq!(c.deactivate_policy("zz").unwrap_err(), "policy not found");
    c.stop();
    assert!(!c.is_running());
}

#[test]
fn registry_limits_and_refusals() {
    let mut cfg = PolicyConfig::default();
    cfg.max_policies = 1;
    cfg.max_wasm_size = 16;
    let mut c = PolicyDSLCompiler::new(cfg);
    assert_eq!(c.register_policy(policy("r", PolicyLanguage::Rust, "x", true), 0, 0).unwrap_err(), "WASM too large");
    assert!(c.get_policy("r").is_none());
    c.register_policy(policy("d", PolicyLanguage::DSL, "x", false), 0, 0).unwrap();
    assert_eq!(c.get_stats().active_policies, 0);
    assert_eq!(c.register_policy(policy("e", PolicyLanguage::DSL, "x", true), 0, 0).unwrap_err(), "policy limit reached");

    let mut off = PolicyConfig::default();
    off.enable_hot_reload = false;
    let mut c2 = PolicyDSLCompiler::new(off);
    assert_eq!(c2.hot_reload("d", "y", 0, 0).unwrap_err(), "hot reload disabled");
}

#[test]
fn hot_reload_snapshot_rollback_and_listing() {
    let mut c = PolicyDSLCompiler::new(PolicyConfig::default());
    c.register_policy(policy("a", PolicyLanguage::Python, "v1", true), 0, 0).unwrap();
    c.register_policy(policy("b", PolicyLanguage::TypeScript, "w1", false), 0, 0).unwrap();

    let snap = c.create_snapshot("s1", 99);
    assert_eq!(snap.snapshot_id, "snap_s1");
    assert_eq!(snap.timestamp, 99);
    assert_eq!(snap.policies.len(), 2);
    let mut input = Vec::new();
    input.extend_from_slice(b"a");
    input.extend_from_slice(&1u32.to_be_bytes());
    input.extend_from_slice(b"b");
    input.extend_from_slice(&1u32.to_be_bytes());
    assert_eq!(snap.hash, hex(&sha(&input)));
    assert_eq!(snap.size_bytes, 2 + 32 + 2 + 32);
    assert_eq!(c.get_stats().total_snapshots, 1);

    c.hot_reload("a", "v2", 5, 0).unwrap();
    let a = c.get_policy("a").unwrap();
    assert_eq!(a.source, "v2");
    assert_eq!(a.version, 2);
    assert_eq!(a.compiled_wasm, Some(sha(b"v2py_wasm_v1")));
    assert_eq!(c.get_stats().hot_reloads, 1);
    assert_eq!(c.hot_reload("zz", "x", 0, 0).unwrap_err(), "policy not found");

    c.rollback_snapshot("snap_s1").unwrap();
    let a = c.get_policy("a").unwrap();
    assert_eq!(a.source, "v1");
    assert_eq!(a.version, 1);
    assert_eq!(c.rollback_snapshot("snap_zz").unwrap_err(), "snapshot not found");

    let all = c.list_policies(None, false);
    assert_eq!(all.len(), 2);
    let active = c.list_policies(None, true);
    assert_eq!(active.len(), 1);
    assert_eq!(active[0].policy_id, "a");
    assert!(c.list_policies(Some("inbound"), false).is_empty());
    assert_eq!(c.list_policies(Some("outbound"), false).len(), 2);
}

#[test]
fn fee_legs() {
    let cfg = TriangularFeeConfig::default();
    assert_eq!(cfg.bmm_fee_bps, 50);
    assert_eq!(cfg.fx_spread_bps, 5);
    assert_eq!(cfg.revenue_fee_bps, 5);
    assert_eq!(cfg.legs_enabled, [true, true, true]);
    // the projected revenue multiplier is these over the market-making fee
    assert_eq!(enabled_fee_bps(&cfg, &[true, false, false]), 50);
    assert_eq!(enabled_fee_bps(&cfg, &[true, true, true]), 60);
    assert_eq!(enabled_fee_bps(&cfg, &[true, true, true, true]), 60);
    assert_eq!(enabled_fee_bps(&cfg, &[]), 0);
    let all5 = TriangularFeeConfig { bmm_fee_bps: 5, fx_spread_bps: 5, revenue_fee_bps: 5, legs_enabled: [true, true, true] };
    assert_eq!(enabled_fee_bps(&all5, &[true, true, true]), 15);
    assert!(is_simulated_route(&[true, true, true], &[false, false, true]));
    assert!(!is_simulated_route(&[true, true, false], &[false, false, true]));
}
