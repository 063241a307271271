use the_bridge::tee::{HardwareEnclave, SgxDcapEnclave, TEEEnclave, TEEError};

#[test]
fn rotate_keys_changes_verifying_key() {
    let mut enclave = TEEEnclave::new();
    let pk_before = enclave.signing_key_bytes();

    let result = enclave.rotate_keys();
    assert!(result.is_ok());
    let msg = result.unwrap();
    assert!(msg.starts_with("KEYS_ROTATED_ED25519_"));

    let pk_after = enclave.signing_key_bytes();
    assert_ne!(pk_before, pk_after);
}

#[test]
fn rotate_keys_changes_key_hash() {
    let mut enclave = TEEEnclave::new();
    let hash_before = enclave.key_hash();

    enclave.rotate_keys().unwrap();
    let hash_after = enclave.key_hash();

    assert_ne!(hash_before, hash_after);
}

#[test]
fn sign_verify_works_before_and_after_rotation() {
    let mut enclave = TEEEnclave::new();
    let msg = b"test message for signing";

    let sig_before = enclave.sign(msg);
    assert!(enclave.verify(msg, &sig_before));

    enclave.rotate_keys().unwrap();

    let sig_after = enclave.sign(msg);
    assert!(enclave.verify(msg, &sig_after));

    assert!(!enclave.verify(msg, &sig_before));
}

#[test]
fn rotate_keys_fails_when_not_initialized() {
    let mut enclave = TEEEnclave::new();
    enclave.set_initialized(false);

    let result = enclave.rotate_keys();
    assert!(result.is_err());
    assert_eq!(result.unwrap_err().message(), "enclave not initialized");
}

#[test]
fn attest_works_and_returns_formatted_string() {
    let enclave = TEEEnclave::new();
    let attestation = enclave.attest().unwrap();
    assert!(attestation.starts_with("THE_BRIDGE_TEE_SIM_ATTESTATION_"));
}

#[test]
fn verify_rejects_garbage_signature() {
    let enclave = TEEEnclave::new();
    let msg = b"hello";
    assert!(!enclave.verify(msg, &[0u8; 64]));
    assert!(!enclave.verify(msg, &[]));
}

#[test]
fn export_sealing_key_returns_bytes() {
    let enclave = TEEEnclave::new();
    let key = enclave.export_sealing_key().unwrap();
    assert!(!key.is_empty());
}

#[test]
fn export_sealing_key_fails_when_seal_broken() {
    let mut enclave = TEEEnclave::new();
    enclave.set_sealed(false);
    assert!(enclave.export_sealing_key().is_err());
}

#[test]
fn key_hash_is_hex_of_public_key() {
    let enclave = TEEEnclave::new();
    let expected: String = enclave.public_key().iter().map(|b| format!("{:02x}", b)).collect();
    assert_eq!(enclave.key_hash(), expected);
    let derived = ed25519_dalek::SigningKey::from_bytes(&enclave.signing_key_bytes()).verifying_key().to_bytes();
    assert_eq!(enclave.public_key(), &derived[..]);
}

#[test]
fn rotate_keys_with_known_secret() {
    let mut enclave = TEEEnclave::new();
    let old_public = enclave.public_key().to_vec();
    let secret = [7u8; 32];
    let msg = enclave.rotate_keys_with(secret).unwrap();
    assert_eq!(enclave.signing_key_bytes(), secret);
    let public = enclave.public_key().to_vec();
    let expected_pk = ed25519_dalek::SigningKey::from_bytes(&secret).verifying_key().to_bytes();
    assert_eq!(public, expected_pk);
    let old_head: String = old_public[..8].iter().map(|b| format!("{:02x}", b)).collect();
    let new_head: String = public[..8].iter().map(|b| format!("{:02x}", b)).collect();
    assert_eq!(msg, format!("KEYS_ROTATED_ED25519_{}_{}", old_head, new_head));
}

#[test]
fn attest_at_fails_when_uninitialised() {
    let mut enclave = TEEEnclave::new();
    let ok = enclave.attest_at(5).unwrap();
    let head: String = enclave.public_key()[..8].iter().map(|b| format!("{:02x}", b)).collect();
    assert!(ok.starts_with(&format!("THE_BRIDGE_TEE_SIM_ATTESTATION_{}_", head)));
    enclave.set_initialized(false);
    assert!(matches!(enclave.attest_at(5), Err(TEEError::NotInitialized)));
    assert_eq!(enclave.status(), "COMPROMISED");
}

#[test]
fn status_and_report() {
    let enclave = TEEEnclave::new();
    assert_eq!(enclave.status(), "SEALED_PROTECTED");
    let head: String = enclave.public_key()[..4].iter().map(|b| format!("{:02x}", b)).collect();
    assert_eq!(enclave.attest_report(), format!("TEE_ED25519_SIM_ACTIVE_{}", head));
}

#[test]
fn error_messages() {
    assert_eq!(TEEError::SealBroken.message(), "enclave seal broken");
    assert_eq!(TEEError::KeyRotationFailed("x".to_string()).message(), "key rotation failed: x");
    assert_eq!(TEEError::SigningFailed("y".to_string()).message(), "signing failed: y");
    assert_eq!(TEEError::VerificationFailed.message(), "verification failed");
    assert_eq!(TEEError::SealExportFailed("z".to_string()).message(), "seal export failed: z");
    assert_eq!(TEEError::SgxNotLinked.message(), "SGX DCAP not linked");
}

#[test]
fn sgx_enclave_is_not_linked() {
    assert!(SgxDcapEnclave::new().is_err());
}
