use aes_gcm::aead::{Aead, KeyInit};
use hmac::{Hmac, Mac};
use sha2::Sha256;
use the_bridge::sovereign::{
    generate_regulator_keypair_hex, SovereignIdentity, SovereignIdentityRequest, SovereignIdentityStore,
};

fn request(tenant_id: u128) -> SovereignIdentityRequest {
    SovereignIdentityRequest {
        tenant_id,
        legal_name: "Norges Bank Investment Management".to_string(),
        lei: "5967007LIEEXZX4LPK21".to_string(),
        jurisdiction: "NO".to_string(),
    }
}

fn store_and_secret() -> (SovereignIdentityStore, String) {
    let (secret_hex, public_hex) = generate_regulator_keypair_hex();
    let store = SovereignIdentityStore::new(&public_hex).expect("store");
    (store, secret_hex)
}

#[test]
fn keypair_is_lowercase_hex_of_32_bytes() {
    let (secret_hex, public_hex) = generate_regulator_keypair_hex();
    assert_eq!(secret_hex.len(), 64);
    assert_eq!(public_hex.len(), 64);
    assert!(secret_hex.chars().all(|c| c.is_ascii_digit() || ('a'..='f').contains(&c)));
    assert!(public_hex.chars().all(|c| c.is_ascii_digit() || ('a'..='f').contains(&c)));
    assert_ne!(secret_hex, public_hex);
}

#[test]
fn new_store_refuses_bad_public_keys() {
    match SovereignIdentityStore::new("zz") {
        Err(e) => assert_eq!(e, "invalid regulator public key hex"),
        Ok(_) => panic!("accepted a non-hex key"),
    }
    match SovereignIdentityStore::new("abc") {
        Err(e) => assert_eq!(e, "invalid regulator public key hex"),
        Ok(_) => panic!("accepted an odd-length key"),
    }
    match SovereignIdentityStore::new(&"ab".repeat(31)) {
        Err(e) => assert_eq!(e, "regulator public key must be 32 bytes"),
        Ok(_) => panic!("accepted a 31-byte key"),
    }
    let store = SovereignIdentityStore::new(&"AB".repeat(32)).expect("upper-case hex is hex");
    assert_eq!(store.identity_count(), 0);
}

#[test]
fn sealed_identity_opens_for_the_regulator() {
    let (mut store, secret_hex) = store_and_secret();
    let tenant = uuid::Uuid::new_v4();
    let id = store.encrypt_identity(&request(tenant.as_u128())).expect("sealed");
    assert_eq!(id.tenant_id, tenant.as_u128());
    assert_eq!(id.ephemeral_pubkey_hex.len(), 64);
    assert!(id.encrypted_blob.len() > 12 + 16);
    assert_eq!(store.identity_count(), 1);

    let value = store.decrypt_identity(&id, &secret_hex).expect("opened");
    assert_eq!(value["legal_name"], "Norges Bank Investment Management");
    assert_eq!(value["lei"], "5967007LIEEXZX4LPK21");
    assert_eq!(value["jurisdiction"], "NO");
    assert_eq!(value["tenant_id"], tenant.to_string());

    let bytes = store.decrypt_identity_bytes(&id, &secret_hex).expect("opened");
    let text = String::from_utf8(bytes).expect("utf-8");
    assert!(text.contains("\"lei\":\"5967007LIEEXZX4LPK21\""));
}

#[test]
fn stored_record_is_the_returned_one() {
    let (mut store, _secret) = store_and_secret();
    let id = store.encrypt_identity(&request(7)).expect("sealed");
    let kept = store.get_encrypted(7).expect("kept");
    assert_eq!(kept.encrypted_blob, id.encrypted_blob);
    assert_eq!(kept.ephemeral_pubkey_hex, id.ephemeral_pubkey_hex);
    assert_eq!(kept.created_at, id.created_at);
    assert!(store.get_encrypted(8).is_none());
}

#[test]
fn sealing_again_replaces_the_tenants_record() {
    let (mut store, secret_hex) = store_and_secret();
    let first = store.encrypt_identity(&request(1)).expect("sealed");
    let second = store.encrypt_identity(&request(1)).expect("sealed");
    let _other = store.encrypt_identity(&request(2)).expect("sealed");
    assert_eq!(store.identity_count(), 2);
    assert_ne!(first.encrypted_blob, second.encrypted_blob);
    assert_eq!(store.get_encrypted(1).expect("kept").encrypted_blob, second.encrypted_blob);
    assert!(store.decrypt_identity(&first, &secret_hex).is_ok());
}

#[test]
fn decrypt_refuses_bad_keys_and_blobs() {
    let (mut store, secret_hex) = store_and_secret();
    let id = store.encrypt_identity(&request(3)).expect("sealed");

    assert_eq!(store.decrypt_identity(&id, "xyz").unwrap_err(), "invalid regulator secret hex");
    assert_eq!(store.decrypt_identity(&id, "abcd").unwrap_err(), "regulator secret must be 32 bytes");

    let mut bad_eph = id.clone();
    bad_eph.ephemeral_pubkey_hex = "not hex".to_string();
    assert_eq!(store.decrypt_identity(&bad_eph, &secret_hex).unwrap_err(), "invalid ephemeral pubkey hex");

    let mut short_eph = id.clone();
    short_eph.ephemeral_pubkey_hex = "0102".to_string();
    assert_eq!(store.decrypt_identity(&short_eph, &secret_hex).unwrap_err(), "ephemeral pubkey must be 32 bytes");

    let short_blob = SovereignIdentity { encrypted_blob: vec![0u8; 11], ..id.clone() };
    assert_eq!(store.decrypt_identity(&short_blob, &secret_hex).unwrap_err(), "ciphertext too short");

    let mut tampered = id.clone();
    let last = tampered.encrypted_blob.len() - 1;
    tampered.encrypted_blob[last] ^= 1;
    let e = store.decrypt_identity(&tampered, &secret_hex).unwrap_err();
    assert!(e.starts_with("decryption failed: "), "{}", e);
}

#[test]
fn another_secret_cannot_open() {
    let (mut store, _secret_hex) = store_and_secret();
    let id = store.encrypt_identity(&request(4)).expect("sealed");
    let (other_secret, _other_public) = generate_regulator_keypair_hex();
    let e = store.decrypt_identity(&id, &other_secret).unwrap_err();
    assert!(e.starts_with("decryption failed: "), "{}", e);
}

#[test]
fn public_key_of_a_generated_secret_matches() {
    let (secret_hex, public_hex) = generate_regulator_keypair_hex();
    assert_eq!(the_bridge::sovereign::regulator_public_key_hex(&secret_hex).unwrap(), public_hex);
    assert_eq!(the_bridge::sovereign::regulator_public_key_hex("g0").unwrap_err(), "regulator secret must be hex");
    assert_eq!(the_bridge::sovereign::regulator_public_key_hex("00").unwrap_err(), "regulator secret must be 32 bytes");
}

#[test]
fn public_key_of_rfc7748_alice() {
    // RFC 7748, section 6.1
    let alice = "77076d0a7318a57d3c16c17251b26645df4c2f87ebc0992ab177fba51db92c2a";
    assert_eq!(
        the_bridge::sovereign::regulator_public_key_hex(alice).unwrap(),
        "8520f0098930a754748b7ddcb43ef75a0dbf3a0d26381af4eba4a98eaa9b4e6a"
    );
}

#[test]
fn sealed_identity_opens_with_standard_hkdf_and_gcm() {
    let (mut store, secret_hex) = store_and_secret();
    let id = store.encrypt_identity(&request(7)).expect("sealed");

    let secret: [u8; 32] = hex::decode(&secret_hex).unwrap().try_into().unwrap();
    let ephemeral: [u8; 32] = hex::decode(&id.ephemeral_pubkey_hex).unwrap().try_into().unwrap();
    let shared = x25519_dalek::StaticSecret::from(secret).diffie_hellman(&x25519_dalek::PublicKey::from(ephemeral));

    let mut extract = <Hmac<Sha256> as Mac>::new_from_slice(b"THE-BRIDGE-SOVEREIGN-2026").unwrap();
    extract.update(shared.as_bytes());
    let prk = extract.finalize().into_bytes();
    let mut expand = <Hmac<Sha256> as Mac>::new_from_slice(&prk).unwrap();
    expand.update(b"the-bridge-sovereign-identity");
    expand.update(&[1u8]);
    let key = expand.finalize().into_bytes();

    let cipher = aes_gcm::Aes256Gcm::new(aes_gcm::Key::<aes_gcm::Aes256Gcm>::from_slice(&key));
    let nonce = aes_gcm::Nonce::from_slice(&id.encrypted_blob[..12]);
    let plain = cipher.decrypt(nonce, &id.encrypted_blob[12..]).expect("standard AES-GCM opens it");
    let value: serde_json::Value = serde_json::from_slice(&plain).unwrap();
    assert_eq!(value["legal_name"], "Norges Bank Investment Management");
    assert_eq!(value["jurisdiction"], "NO");
}
