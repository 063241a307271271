use sha2::{Digest, Sha256};
use the_bridge::sovereign_ghost::{build_relay_network, CircuitStatus, GhostProtocolConfig, SovereignGhost};

fn hex_sha(data: &[u8]) -> String {
    Sha256::digest(data).iter().map(|b| format!("{:02x}", b)).collect()
}

#[test]
fn test_create_and_dissolve_circuit() {
    let mut ghost = SovereignGhost::new(GhostProtocolConfig::default());
    ghost.start().unwrap();

    let circuit = ghost.create_circuit().unwrap();
    assert_eq!(circuit.status, CircuitStatus::Active);
    assert_eq!(circuit.hops.len(), 3);

    ghost.dissolve_circuit(&circuit.circuit_id).unwrap();
    assert_eq!(ghost.get_status().active_circuits, 0);
    assert_eq!(ghost.get_status().total_dissolved, 1);
    let again = ghost.dissolve_circuit(&circuit.circuit_id).unwrap_err();
    assert_eq!(again, format!("Circuit {} already dissolved", circuit.circuit_id));
    assert_eq!(ghost.dissolve_circuit("nope").unwrap_err(), "Circuit nope not found");
}

#[test]
fn test_emergency_dissolve() {
    let mut ghost = SovereignGhost::new(GhostProtocolConfig::default());
    ghost.start().unwrap();

    let _c1 = ghost.create_circuit().unwrap();
    let _c2 = ghost.create_circuit().unwrap();

    ghost.emergency_dissolve_all().unwrap();

    let status = ghost.get_status();
    assert!(status.is_emergency_mode);
    assert_eq!(status.active_circuits, 0);
    assert_eq!(status.total_dissolved, 2);
    assert_eq!(
        ghost.create_circuit().unwrap_err(),
        "Emergency mode active \u{2014} circuit creation blocked"
    );
    assert_eq!(ghost.relay_traffic("x", 1).unwrap_err(), "Emergency mode active \u{2014} relay blocked");
}

#[test]
fn test_identity_rotation() {
    let mut ghost = SovereignGhost::new(GhostProtocolConfig::default());
    ghost.start().unwrap();

    let id1 = ghost.rotate_identity();
    let id2 = ghost.rotate_identity();

    assert_ne!(id1.temp_id, id2.temp_id);
    assert_eq!(ghost.get_status().identities_rotated, 3);
    assert!(ghost.start().is_err());
}

#[test]
fn test_max_concurrent_circuits() {
    let config = GhostProtocolConfig { max_concurrent_circuits: 2, ..Default::default() };
    let mut ghost = SovereignGhost::new(config);
    ghost.start().unwrap();

    let _c1 = ghost.create_circuit().unwrap();
    let _c2 = ghost.create_circuit().unwrap();
    assert_eq!(ghost.create_circuit().unwrap_err(), "Max concurrent circuits (2) reached");
    assert_eq!(ghost.circuit_count(), 2);
}

#[test]
fn test_onion_packet_creation() {
    let mut ghost = SovereignGhost::new(GhostProtocolConfig::default());
    ghost.start().unwrap();

    let circuit = ghost.create_circuit().unwrap();
    let packet = ghost
        .create_onion_packet_with(&circuit, b"test payload", &[1, 2, 3], &[0, 127, 128], 5)
        .unwrap();

    assert_eq!(packet.layers.len(), 3);
    assert_eq!(packet.circuit_id, circuit.circuit_id);
    assert_eq!(packet.payload_hash, hex_sha(b"test payload"));
    assert_eq!(packet.entry_timestamp, 5);
    assert_eq!(packet.layers[0].padding_bytes, 512);
    assert_eq!(packet.layers[1].padding_bytes, 639);
    assert_eq!(packet.layers[2].padding_bytes, 512);
    assert!(packet.layers[0].relay_data.is_empty());
    assert_eq!(packet.layers[2].relay_data, b"test payload".to_vec());
    assert_eq!(packet.layers[1].encrypted_key, hex_sha(format!("{}-1-2", circuit.circuit_id).as_bytes()));
}

#[test]
fn test_traffic_relay() {
    let mut ghost = SovereignGhost::new(GhostProtocolConfig::default());
    ghost.start().unwrap();

    let circuit = ghost.create_circuit().unwrap();
    let bytes = ghost.relay_traffic(&circuit.circuit_id, 1024).unwrap();

    assert_eq!(bytes, 1024 + 256);
    let status = ghost.get_status();
    assert_eq!(status.bytes_relayed_total, 1280);
    assert_eq!(
        ghost.relay_traffic("missing", 1).unwrap_err(),
        "Circuit missing not found or not active"
    );
}

#[test]
fn test_status() {
    let ghost = SovereignGhost::new(GhostProtocolConfig::default());
    let status = ghost.get_status();
    assert_eq!(status.active_circuits, 0);
    assert_eq!(status.total_dissolved, 0);
    assert!(!status.is_emergency_mode);
}

#[test]
fn relay_network_layout() {
    let nodes = build_relay_network();
    assert_eq!(nodes.len(), 20);
    assert_eq!(nodes[0].node_id, "ghost-guard-000");
    assert_eq!(nodes[4].node_id, "ghost-relay-004");
    assert_eq!(nodes[19].node_id, "ghost-exit-019");
    assert_eq!(nodes[19].address, "10.0.0.19");
    assert_eq!(nodes[17].latency_ms, 5 + 17 % 15);
    assert_eq!(nodes[15].bandwidth_mbps, 100 + 150 % 200);
    assert!(nodes[3].is_guard && !nodes[4].is_guard);
    assert!(nodes[16].is_exit && !nodes[15].is_exit);
}

#[test]
fn circuits_built_from_picks() {
    let mut ghost = SovereignGhost::new(GhostProtocolConfig::default());
    // guard: candidates 0..4, pick 1 -> relay 1; middle: all but 1, pick 0 -> relay 0;
    // exit: 16..20, pick 5 -> 5 % 4 = 1 -> relay 17
    let c = ghost.create_circuit_with(&[1, 0, 5], &[3, 12, 0], 77, 1000).unwrap();
    assert_eq!(c.hops[0].node_id, "ghost-guard-001");
    assert_eq!(c.hops[1].node_id, "ghost-guard-000");
    assert_eq!(c.hops[2].node_id, "ghost-exit-017");
    assert_eq!(c.hops[0].latency_ms, 6 + 3);
    assert_eq!(c.hops[1].latency_ms, 5 + 2);
    assert_eq!(c.hops[2].encryption_layer, 2);
    assert_eq!(c.created_at, 1000);
    assert_eq!(c.expires_at, 1300);
    assert_eq!(c.circuit_id, hex_sha(b"1000-77-ghost-guard-001"));

    // a circuit that expired is dissolved by the sweep, one that has not is kept
    let d = ghost.create_circuit_with(&[0, 0, 0], &[0, 0, 0], 78, 2000).unwrap();
    ghost.check_expired_circuits_at(1300);
    let st = ghost.get_status();
    assert_eq!(st.active_circuits, 1);
    assert_eq!(st.total_dissolved, 1);
    assert!(ghost.relay_traffic(&c.circuit_id, 1).is_err());
    assert!(ghost.relay_traffic(&d.circuit_id, 8).is_ok());
}

#[test]
fn too_many_layers_fail_at_the_first_empty_layer() {
    // one guard layer, then 18 middle layers, then an exit: 20 relays hold
    // at most 20 layers; with 21 the last layer finds no exit left
    let config = GhostProtocolConfig { onion_layers: 21, max_concurrent_circuits: 4, ..Default::default() };
    let mut ghost = SovereignGhost::new(config);
    let picks = vec![0u64; 21];
    let r = ghost.create_circuit_with(&picks, &picks, 1, 1);
    assert!(r.unwrap_err().starts_with("No suitable relay node for layer "));
    assert_eq!(ghost.circuit_count(), 0);
}

#[test]
fn identities_from_known_randomness() {
    let mut ghost = SovereignGhost::new(GhostProtocolConfig { tor_compatible: true, ..Default::default() });
    let id = ghost.rotate_identity_at(100, 5, 6);
    let digest = hex_sha(b"100-5-6");
    assert_eq!(id.key_material_hash, digest);
    assert_eq!(id.temp_id, format!("ghost-id-{}", digest));
    assert_eq!(id.expires_at, 100 + 3600);
}
