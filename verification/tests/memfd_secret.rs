use the_bridge::memfd_secret::{MemfdSecretConfig, MemfdSecretStore};

#[test]
fn config_defaults() {
    let c = MemfdSecretConfig::default();
    assert!(c.enabled && c.seal_after_write && c.audit_enabled);
    assert_eq!(c.max_secrets, 10_000);
    assert_eq!(c.max_secret_size, 10 * 1024 * 1024);
    assert_eq!(c.encryption_algorithm, "AES-256-GCM");
    assert_eq!(c.key_derivation, "Argon2id");
    assert_eq!(c.rotation_interval_secs, 86400);
}

#[test]
fn access_returns_what_was_stored() {
    let mut s = MemfdSecretStore::new(MemfdSecretConfig::default());
    s.store_secret_at("k1", "ns", "key", vec![1, 2, 3], "AES", 1_000, "a1").unwrap();
    let st = s.get_stats();
    assert_eq!(st.total_secrets, 1);
    assert_eq!(st.total_bytes, 3);
    assert_eq!(st.sealed_count, 1);
    assert_eq!(st.seal_operations, 1);
    assert_eq!(st.audit_log_size, 1);

    let v = s.access_secret_at("k1", 2_000, "a2").unwrap();
    assert_eq!(v, vec![1, 2, 3]);
    let st = s.get_stats();
    assert_eq!(st.sealed_count, 0);
    assert_eq!(st.unsealed_count, 1);
    assert_eq!(st.unseal_operations, 1);
    assert_eq!(st.total_accesses, 1);

    let listed = s.list_secrets(None);
    assert_eq!(listed.len(), 1);
    assert!(!listed[0].sealed);
    assert_eq!(listed[0].access_count, 1);
    assert_eq!(listed[0].last_accessed, 2_000);
    assert_eq!(listed[0].created_at, 1_000);
    assert_eq!(listed[0].rotation_due, Some(1_000 + 86_400_000));
    assert_eq!(listed[0].version, 1);

    let log = s.get_audit_log(10);
    assert_eq!(log.len(), 2);
    assert_eq!(log[0].operation, "access");
    assert_eq!(log[0].details, "accessed, version=1");
    assert_eq!(log[1].operation, "store");
    assert_eq!(log[1].details, "stored 3 bytes with AES");
    assert_eq!(log[1].id, "a1");
    assert_eq!(s.get_audit_log(1).len(), 1);
}

#[test]
fn refusals() {
    let mut off = MemfdSecretConfig::default();
    off.enabled = false;
    let mut s = MemfdSecretStore::new(off);
    assert_eq!(s.store_secret_at("k", "n", "k", vec![1], "A", 0, "x").unwrap_err(), "store disabled");

    let mut small = MemfdSecretConfig::default();
    small.max_secrets = 1;
    small.max_secret_size = 2;
    let mut s = MemfdSecretStore::new(small);
    assert_eq!(s.store_secret_at("k", "n", "k", vec![1, 2, 3], "A", 0, "x").unwrap_err(), "secret too large");
    s.store_secret_at("k", "n", "k", vec![1, 2], "A", 0, "x").unwrap();
    assert_eq!(s.store_secret_at("j", "n", "k", vec![1], "A", 0, "x").unwrap_err(), "secret store full");
    assert_eq!(s.access_secret_at("zz", 0, "x").unwrap_err(), "secret not found");
    assert_eq!(s.seal_secret("zz").unwrap_err(), "secret not found");
    assert_eq!(s.rotate_secret_at("zz", vec![], 0).unwrap_err(), "secret not found");
    assert_eq!(s.delete_secret("zz").unwrap_err(), "secret not found");
}

#[test]
fn rotate_seal_delete() {
    let mut s = MemfdSecretStore::new(MemfdSecretConfig::default());
    s.store_secret_at("a", "n1", "k", vec![9; 10], "A", 0, "x").unwrap();
    s.store_secret_at("b", "n2", "k", vec![8; 4], "A", 0, "y").unwrap();
    s.rotate_secret_at("a", vec![7; 6], 100).unwrap();
    assert_eq!(s.get_stats().total_bytes, 10);
    assert_eq!(s.get_stats().rotation_operations, 1);
    assert_eq!(s.access_secret_at("a", 200, "z").unwrap(), vec![7; 6]);
    assert_eq!(s.access_secret_at("b", 200, "w").unwrap(), vec![8; 4]);
    let a = s.list_secrets(Some("n1"));
    assert_eq!(a.len(), 1);
    assert_eq!(a[0].version, 2);
    assert_eq!(a[0].size_bytes, 6);
    assert_eq!(a[0].rotation_due, Some(100 + 86_400_000));

    s.seal_secret("a").unwrap();
    assert_eq!(s.get_stats().sealed_count, 1);
    assert_eq!(s.get_stats().unsealed_count, 1);

    s.delete_secret("a").unwrap();
    assert_eq!(s.secret_count(), 1);
    assert_eq!(s.get_stats().total_secrets, 1);
    assert_eq!(s.get_stats().total_bytes, 4);
    assert_eq!(s.get_stats().sealed_count, 0);
    assert!(s.access_secret_at("a", 0, "q").is_err());
}

#[test]
fn periodic_passes() {
    let mut cfg = MemfdSecretConfig::default();
    cfg.seal_after_write = false;
    cfg.rotation_interval_secs = 10;
    let mut s = MemfdSecretStore::new(cfg);
    s.start().unwrap();
    assert!(s.is_running());
    s.store_secret_at("a", "n", "k", vec![1], "A", 0, "x").unwrap();
    s.store_secret_at("b", "n", "k", vec![2], "A", 5_000, "y").unwrap();
    assert_eq!(s.get_stats().sealed_count, 0);

    s.auto_seal_step();
    let st = s.get_stats();
    assert_eq!(st.seal_operations, 2);
    assert_eq!(st.sealed_count, 2);
    assert!(s.list_secrets(None).iter().all(|e| e.sealed));

    // a is due at 10 000, b at 15 000
    s.rotation_step(12_000);
    let entries = s.list_secrets(None);
    assert_eq!(entries[0].version, 2);
    assert_eq!(entries[0].rotation_due, Some(13_000));
    assert_eq!(entries[1].version, 1);
    assert_eq!(s.get_stats().rotation_operations, 1);
    s.stop();
    assert!(!s.is_running());
}

#[test]
fn clock_driven_calls() {
    let mut s = MemfdSecretStore::new(MemfdSecretConfig::default());
    s.store_secret("c", "n", "k", b"secret".to_vec(), "AES").unwrap();
    assert_eq!(s.access_secret("c").unwrap(), b"secret".to_vec());
    s.rotate_secret("c", b"next".to_vec()).unwrap();
    assert_eq!(s.access_secret("c").unwrap(), b"next".to_vec());
}
