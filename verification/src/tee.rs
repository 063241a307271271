//! The trusted-execution signer: an Ed25519 key pair held by an enclave,
//! used to sign and verify, attest, rotate and export its sealing key.

use vstd::prelude::*;
use vstd::string::*;
use vstd::utf8::*;
use vstd::slice::slice_subrange;
use ed25519_dalek::{Signer, Verifier};
use crate::text::{hex_encode, hex_lower, owned, push_hex, push_i64, push_str, signed_decimal};

verus! {

/// The Ed25519 public key (32 bytes) of a secret key.
pub uninterp spec fn ed25519_public(secret: Seq<u8>) -> Seq<u8>;

/// The Ed25519 signature (64 bytes) of a message under a secret key;
/// Ed25519 signing is deterministic.
pub uninterp spec fn ed25519_sign(secret: Seq<u8>, msg: Seq<u8>) -> Seq<u8>;

/// Whether a signature verifies for a message under a public key.
pub uninterp spec fn ed25519_verify(public: Seq<u8>, msg: Seq<u8>, sig: Seq<u8>) -> bool;

/// `SigningKey::generate` with the operating system's generator: fresh
/// random secret-key bytes; nothing is promised of them.
#[verifier::external_body]
fn generate_secret_key() -> (r: [u8; 32]) {
    let mut csprng = rand_core::OsRng;
    ed25519_dalek::SigningKey::generate(&mut csprng).to_bytes()
}

/// `SigningKey::verifying_key`: the public key of a secret key.
#[verifier::external_body]
fn public_key_of(secret: &[u8; 32]) -> (r: [u8; 32])
    ensures
        r@ == ed25519_public(secret@),
{
    ed25519_dalek::SigningKey::from_bytes(secret).verifying_key().to_bytes()
}

/// `Signer::sign`: the signature of a message; by Ed25519's correctness it
/// verifies under the key's own public key.
#[verifier::external_body]
fn sign_message(secret: &[u8; 32], msg: &[u8]) -> (r: Vec<u8>)
    ensures
        r@ == ed25519_sign(secret@, msg@),
        r@.len() == 64,
        ed25519_verify(ed25519_public(secret@), msg@, r@),
{
    ed25519_dalek::SigningKey::from_bytes(secret).sign(msg).to_bytes().to_vec()
}

/// `Verifier::verify` after `Signature::from_slice`: whether the signature
/// verifies; a signature that is not 64 bytes long never does.
#[verifier::external_body]
fn verify_signature(public: &[u8; 32], msg: &[u8], sig: &[u8]) -> (r: bool)
    ensures
        r == ed25519_verify(public@, msg@, sig@),
        sig@.len() != 64 ==> !r,
{
    let vk = match ed25519_dalek::VerifyingKey::from_bytes(public) {
        Ok(vk) => vk,
        Err(_) => return false,
    };
    match ed25519_dalek::Signature::from_slice(sig) {
        Ok(s) => vk.verify(msg, &s).is_ok(),
        Err(_) => false,
    }
}

/// `Utc::now().timestamp_nanos_opt()`, 0 when out of range: the wall clock in
/// nanoseconds; nothing is promised of it.
#[verifier::external_body]
fn now_nanos() -> (r: i64) {
    chrono::Utc::now().timestamp_nanos_opt().unwrap_or(0)
}

/// The eight little-endian bytes of a 64-bit length.
pub open spec fn le_u64_bytes(n: nat) -> Seq<u8> {
    seq![
        (n % 256) as u8,
        ((n / 256) % 256) as u8,
        ((n / 65536) % 256) as u8,
        ((n / 16777216) % 256) as u8,
        ((n / 4294967296) % 256) as u8,
        ((n / 1099511627776) % 256) as u8,
        ((n / 281474976710656) % 256) as u8,
        ((n / 72057594037927936) % 256) as u8,
    ]
}

/// bincode's encoding of a byte vector: its length as a little-endian u64,
/// then the bytes.
pub open spec fn bincode_byte_vec(data: Seq<u8>) -> Seq<u8> {
    le_u64_bytes(data.len()) + data
}

/// `bincode::serialize` of a byte vector. Its default options set no size
/// limit, and writing a sequence of known length into a `Vec` cannot fail,
/// so the result is always `Ok`.
#[verifier::external_body]
fn bincode_serialize_bytes(data: &[u8]) -> (r: Result<Vec<u8>, String>)
    ensures
        r is Ok,
        r matches Ok(v) ==> v@ == bincode_byte_vec(data@),
{
    match bincode::serialize(&data.to_vec()) {
        Ok(v) => Ok(v),
        Err(e) => Err(e.to_string()),
    }
}

/// Why an enclave operation failed.
#[derive(Debug, Clone)]
pub enum TEEError {
    NotInitialized,
    SealBroken,
    KeyRotationFailed(String),
    SigningFailed(String),
    VerificationFailed,
    SealExportFailed(String),
    SgxNotLinked,
}

impl TEEError {
    /// The message of an error.
    pub open spec fn spec_message(&self) -> Seq<char> {
        match self {
            TEEError::NotInitialized => "enclave not initialized"@,
            TEEError::SealBroken => "enclave seal broken"@,
            TEEError::KeyRotationFailed(m) => "key rotation failed: "@ + m@,
            TEEError::SigningFailed(m) => "signing failed: "@ + m@,
            TEEError::VerificationFailed => "verification failed"@,
            TEEError::SealExportFailed(m) => "seal export failed: "@ + m@,
            TEEError::SgxNotLinked => "SGX DCAP not linked"@,
        }
    }

    /// The human-readable message of the error.
    pub fn message(&self) -> (r: String)
        ensures
            r@ == self.spec_message(),
    {
        match self {
            TEEError::NotInitialized => owned("enclave not initialized"),
            TEEError::SealBroken => owned("enclave seal broken"),
            TEEError::KeyRotationFailed(m) => {
                let mut s = owned("key rotation failed: ");
                push_str(&mut s, m.as_str());
                s
            },
            TEEError::SigningFailed(m) => {
                let mut s = owned("signing failed: ");
                push_str(&mut s, m.as_str());
                s
            },
            TEEError::VerificationFailed => owned("verification failed"),
            TEEError::SealExportFailed(m) => {
                let mut s = owned("seal export failed: ");
                push_str(&mut s, m.as_str());
                s
            },
            TEEError::SgxNotLinked => owned("SGX DCAP not linked"),
        }
    }
}

/// A hardware-backed signing enclave.
pub trait HardwareEnclave {
    fn sign(&self, msg: &[u8]) -> Vec<u8>;

    fn verify(&self, msg: &[u8], signature: &[u8]) -> bool;

    fn attest(&self) -> Result<String, TEEError>;

    fn public_key(&self) -> &[u8];

    fn signing_key_bytes(&self) -> [u8; 32];

    fn rotate_keys(&mut self) -> Result<String, TEEError>;

    fn measure(&self) -> Result<Vec<u8>, TEEError>;

    fn export_sealing_key(&self) -> Result<Vec<u8>, TEEError>;
}

/// The software enclave: an Ed25519 key pair, the hex text of its public key,
/// and its initialised, sealed and hardware-mode flags.
pub struct TEEEnclave {
    initialized: bool,
    sealed: bool,
    secret: [u8; 32],
    public: [u8; 32],
    key_hash: String,
    hardware_mode: bool,
}

/// The attestation text: hardware tag, the first eight public-key bytes and
/// the signature, in hex.
pub open spec fn attestation_text(hardware: bool, public: Seq<u8>, sig: Seq<u8>) -> Seq<char> {
    "THE_BRIDGE_TEE_"@ + (if hardware { "SGX_DCAP"@ } else { "SIM"@ }) + "_ATTESTATION_"@
        + hex_lower(public.take(8)) + "_"@ + hex_lower(sig)
}

/// The message signed in an attestation made at clock reading `ts`.
pub open spec fn attestation_message(ts: i64) -> Seq<char> {
    "THE_BRIDGE_TEE_ATTESTATION_"@ + signed_decimal(ts as int)
}

/// The text returned by a key rotation.
pub open spec fn rotation_text(old_public: Seq<u8>, new_public: Seq<u8>) -> Seq<char> {
    "KEYS_ROTATED_ED25519_"@ + hex_lower(old_public.take(8)) + "_"@ + hex_lower(new_public.take(8))
}

impl TEEEnclave {
    #[verifier::type_invariant]
    closed spec fn inv(&self) -> bool {
        &&& self.public@ == ed25519_public(self.secret@)
        &&& self.key_hash@ == hex_lower(self.public@)
    }

    pub closed spec fn spec_secret(&self) -> Seq<u8> {
        self.secret@
    }

    pub closed spec fn spec_public(&self) -> Seq<u8> {
        self.public@
    }

    pub closed spec fn spec_initialized(&self) -> bool {
        self.initialized
    }

    pub closed spec fn spec_sealed(&self) -> bool {
        self.sealed
    }

    pub closed spec fn spec_hardware(&self) -> bool {
        self.hardware_mode
    }

    /// A fresh enclave: a newly generated key, initialised and sealed, in
    /// simulation mode.
    pub fn new() -> (r: TEEEnclave)
        ensures
            r.spec_initialized(),
            r.spec_sealed(),
            !r.spec_hardware(),
    {
        let secret = generate_secret_key();
        let public = public_key_of(&secret);
        let key_hash = hex_encode(public.as_slice());
        TEEEnclave { initialized: true, sealed: true, secret, public, key_hash, hardware_mode: false }
    }

    /// The hex text of the current public key.
    pub fn key_hash(&self) -> (r: String)
        ensures
            r@ == hex_lower(self.spec_public()),
    {
        proof {
            use_type_invariant(self);
        }
        self.key_hash.clone()
    }

    /// Marks the enclave initialised or not.
    pub fn set_initialized(&mut self, on: bool)
        ensures
            final(self).spec_initialized() == on,
            final(self).spec_sealed() == old(self).spec_sealed(),
            final(self).spec_secret() == old(self).spec_secret(),
            final(self).spec_public() == old(self).spec_public(),
            final(self).spec_hardware() == old(self).spec_hardware(),
    {
        proof {
            use_type_invariant(&*self);
        }
        self.initialized = on;
    }

    /// Marks the seal intact or broken.
    pub fn set_sealed(&mut self, on: bool)
        ensures
            final(self).spec_sealed() == on,
            final(self).spec_initialized() == old(self).spec_initialized(),
            final(self).spec_secret() == old(self).spec_secret(),
            final(self).spec_public() == old(self).spec_public(),
            final(self).spec_hardware() == old(self).spec_hardware(),
    {
        proof {
            use_type_invariant(&*self);
        }
        self.sealed = on;
    }

    /// A short report: mode and the first four public-key bytes in hex.
    pub fn attest_report(&self) -> (r: String)
        ensures
            r@ == "TEE_ED25519_"@ + (if self.spec_hardware() { "DCAP"@ } else { "SIM"@ }) + "_ACTIVE_"@
                + hex_lower(self.spec_public().take(4)),
    {
        let mut s = owned("TEE_ED25519_");
        push_str(&mut s, if self.hardware_mode { "DCAP" } else { "SIM" });
        push_str(&mut s, "_ACTIVE_");
        let head = slice_subrange(self.public.as_slice(), 0, 4);
        push_hex(&mut s, head);
        s
    }

    /// "SEALED_PROTECTED" while initialised and sealed, "COMPROMISED"
    /// otherwise.
    pub fn status(&self) -> (r: String)
        ensures
            r@ == (if self.spec_initialized() && self.spec_sealed() { "SEALED_PROTECTED"@ } else { "COMPROMISED"@ }),
    {
        if self.initialized && self.sealed {
            owned("SEALED_PROTECTED")
        } else {
            owned("COMPROMISED")
        }
    }

    /// The attestation for a given clock reading.
    pub fn attest_at(&self, ts: i64) -> (r: Result<String, TEEError>)
        ensures
            !self.spec_initialized() ==> r matches Err(TEEError::NotInitialized),
            self.spec_initialized() ==> (r matches Ok(s) && s@ == attestation_text(
                self.spec_hardware(),
                self.spec_public(),
                ed25519_sign(self.spec_secret(), encode_utf8(attestation_message(ts))),
            )),
    {
        if !self.initialized {
            return Err(TEEError::NotInitialized);
        }
        let mut msg = owned("THE_BRIDGE_TEE_ATTESTATION_");
        push_i64(&mut msg, ts);
        let sig = sign_message(&self.secret, msg.as_str().as_bytes());
        let mut s = owned("THE_BRIDGE_TEE_");
        push_str(&mut s, if self.hardware_mode { "SGX_DCAP" } else { "SIM" });
        push_str(&mut s, "_ATTESTATION_");
        let head = slice_subrange(self.public.as_slice(), 0, 8);
        push_hex(&mut s, head);
        push_str(&mut s, "_");
        push_hex(&mut s, sig.as_slice());
        Ok(s)
    }

    /// Rotation with a given replacement secret key.
    pub fn rotate_keys_with(&mut self, new_secret: [u8; 32]) -> (r: Result<String, TEEError>)
        ensures
            !old(self).spec_initialized() ==> (r matches Err(TEEError::NotInitialized)) && final(self).spec_secret() == old(self).spec_secret(),
            old(self).spec_initialized() ==> (r matches Ok(s) && s@ == rotation_text(old(self).spec_public(), final(self).spec_public())),
            old(self).spec_initialized() ==> final(self).spec_secret() == new_secret@,
            final(self).spec_initialized() == old(self).spec_initialized(),
            final(self).spec_sealed() == old(self).spec_sealed(),
            final(self).spec_hardware() == old(self).spec_hardware(),
    {
        if !self.initialized {
            return Err(TEEError::NotInitialized);
        }
        let new_public = public_key_of(&new_secret);
        let new_hash = hex_encode(new_public.as_slice());
        let mut s = owned("KEYS_ROTATED_ED25519_");
        push_hex(&mut s, slice_subrange(self.public.as_slice(), 0, 8));
        push_str(&mut s, "_");
        push_hex(&mut s, slice_subrange(new_public.as_slice(), 0, 8));
        *self = TEEEnclave {
            initialized: self.initialized,
            sealed: self.sealed,
            secret: new_secret,
            public: new_public,
            key_hash: new_hash,
            hardware_mode: self.hardware_mode,
        };
        Ok(s)
    }
}

impl HardwareEnclave for TEEEnclave {
    /// The signature of the message under the current key; it verifies
    /// under the current public key.
    fn sign(&self, msg: &[u8]) -> (r: Vec<u8>)
        ensures
            r@ == ed25519_sign(self.spec_secret(), msg@),
            ed25519_verify(self.spec_public(), msg@, r@),
    {
        proof {
            use_type_invariant(self);
        }
        sign_message(&self.secret, msg)
    }

    fn verify(&self, msg: &[u8], signature: &[u8]) -> (r: bool)
        ensures
            r == ed25519_verify(self.spec_public(), msg@, signature@),
            signature@.len() != 64 ==> !r,
    {
        verify_signature(&self.public, msg, signature)
    }

    /// An attestation signed now; its clock reading is not known here.
    fn attest(&self) -> (r: Result<String, TEEError>)
        ensures
            !self.spec_initialized() ==> r matches Err(TEEError::NotInitialized),
            self.spec_initialized() ==> exists|ts: i64| (r matches Ok(s) && s@ == #[trigger] attestation_text(
                self.spec_hardware(),
                self.spec_public(),
                ed25519_sign(self.spec_secret(), encode_utf8(attestation_message(ts))),
            )),
    {
        if !self.initialized {
            return Err(TEEError::NotInitialized);
        }
        let ts = now_nanos();
        self.attest_at(ts)
    }

    fn public_key(&self) -> (r: &[u8])
        ensures
            r@ == self.spec_public(),
    {
        self.public.as_slice()
    }

    fn signing_key_bytes(&self) -> (r: [u8; 32])
        ensures
            r@ == self.spec_secret(),
    {
        self.secret
    }

    /// Replaces the key pair with a freshly generated one.
    fn rotate_keys(&mut self) -> (r: Result<String, TEEError>)
        ensures
            !old(self).spec_initialized() ==> (r matches Err(TEEError::NotInitialized)) && final(self).spec_secret() == old(self).spec_secret(),
            old(self).spec_initialized() ==> (r matches Ok(s) && s@ == rotation_text(old(self).spec_public(), final(self).spec_public())),
            final(self).spec_initialized() == old(self).spec_initialized(),
            final(self).spec_sealed() == old(self).spec_sealed(),
            final(self).spec_hardware() == old(self).spec_hardware(),
    {
        if !self.initialized {
            return Err(TEEError::NotInitialized);
        }
        let fresh = generate_secret_key();
        self.rotate_keys_with(fresh)
    }

    /// The measurement: the public key followed by the bytes of its hex text.
    fn measure(&self) -> (r: Result<Vec<u8>, TEEError>)
        ensures
            r matches Ok(m) && m@ == self.spec_public() + encode_utf8(hex_lower(self.spec_public())),
    {
        proof {
            use_type_invariant(self);
        }
        let mut m: Vec<u8> = Vec::new();
        let mut i: usize = 0;
        while i < 32
            invariant
                i <= 32,
                m@ == self.public@.take(i as int),
            decreases 32 - i,
        {
            m.push(self.public[i]);
            assert(m@ =~= self.public@.take(i + 1));
            i = i + 1;
        }
        let hb = self.key_hash.as_str().as_bytes();
        let mut j: usize = 0;
        while j < hb.len()
            invariant
                j <= hb@.len(),
                m@ == self.public@ + hb@.take(j as int),
            decreases hb@.len() - j,
        {
            m.push(hb[j]);
            assert(m@ =~= self.public@ + hb@.take(j + 1));
            j = j + 1;
        }
        assert(hb@.take(hb@.len() as int) =~= hb@);
        Ok(m)
    }

    /// The secret key in bincode form, unless the seal is broken.
    fn export_sealing_key(&self) -> (r: Result<Vec<u8>, TEEError>)
        ensures
            !self.spec_sealed() ==> r matches Err(TEEError::SealBroken),
            self.spec_sealed() ==> (r matches Ok(v) && v@ == bincode_byte_vec(self.spec_secret())),
    {
        if !self.sealed {
            return Err(TEEError::SealBroken);
        }
        match bincode_serialize_bytes(self.secret.as_slice()) {
            Ok(v) => Ok(v),
            Err(m) => Err(TEEError::SealExportFailed(m)),
        }
    }
}

/// An SGX DCAP enclave; this build is not linked against the SGX SDK.
pub struct SgxDcapEnclave;

impl SgxDcapEnclave {
    /// Always refused: the SGX quoting library is not linked.
    pub fn new() -> (r: Result<SgxDcapEnclave, String>)
        ensures
            r matches Err(m) && m@ == "SGX DCAP requires Intel SGX SDK \u{2014} compile with sgx-target and link libsgx_dcap_ql"@,
    {
        Err(owned("SGX DCAP requires Intel SGX SDK \u{2014} compile with sgx-target and link libsgx_dcap_ql"))
    }
}

impl HardwareEnclave for SgxDcapEnclave {
    fn sign(&self, _msg: &[u8]) -> (r: Vec<u8>)
        ensures
            r@.len() == 0,
    {
        Vec::new()
    }

    fn verify(&self, _msg: &[u8], _signature: &[u8]) -> (r: bool)
        ensures
            !r,
    {
        false
    }

    fn attest(&self) -> (r: Result<String, TEEError>)
        ensures
            r matches Err(TEEError::SgxNotLinked),
    {
        Err(TEEError::SgxNotLinked)
    }

    fn public_key(&self) -> (r: &[u8])
        ensures
            r@.len() == 0,
    {
        let v: &[u8] = &[];
        v
    }

    fn signing_key_bytes(&self) -> (r: [u8; 32])
        ensures
            forall|i: int| 0 <= i < 32 ==> r@[i] == 0,
    {
        [0u8; 32]
    }

    fn rotate_keys(&mut self) -> (r: Result<String, TEEError>)
        ensures
            r matches Err(TEEError::SgxNotLinked),
    {
        Err(TEEError::SgxNotLinked)
    }

    fn measure(&self) -> (r: Result<Vec<u8>, TEEError>)
        ensures
            r matches Err(TEEError::SgxNotLinked),
    {
        Err(TEEError::SgxNotLinked)
    }

    fn export_sealing_key(&self) -> (r: Result<Vec<u8>, TEEError>)
        ensures
            r matches Err(TEEError::SgxNotLinked),
    {
        Err(TEEError::SgxNotLinked)
    }
}

} // verus!
