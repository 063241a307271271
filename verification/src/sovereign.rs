//! Sovereign identities: a tenant's legal identity sealed for the
//! regulator. A fresh X25519 key agreed with the regulator's public key is
//! stretched by HKDF-SHA256 into an AES-256-GCM key; the record keeps the
//! nonce and ciphertext, and the ephemeral public key in hexadecimal, so that
//! only the holder of the regulator's secret can open it.

use vstd::prelude::*;
use vstd::slice::{slice_subrange, slice_to_vec};
use vstd::string::*;
use aes_gcm::{Aes256Gcm, Key, Nonce};
use aes_gcm::aead::{Aead, KeyInit};
use hmac::{Hmac, Mac};
use rand::RngCore;
use sha2::Sha256;
use x25519_dalek::{EphemeralSecret, PublicKey};
use crate::text::{hex_bytes, hex_decode, hex_encode, hex_lower, lemma_hex_roundtrip, owned, push_str};
use crate::threshold_crypto::random_32;
use crate::clock::utc_millis;

verus! {

/// The HKDF salt of the identity key.
pub const SOVEREIGN_SALT: &'static str = "THE-BRIDGE-SOVEREIGN-2026";

/// The HKDF info of the identity key.
pub const SOVEREIGN_INFO: &'static str = "the-bridge-sovereign-identity";

/// The length of the AES-GCM nonce that starts a sealed blob.
pub const NONCE_SIZE: usize = 12;

/// The X25519 base point: 9 followed by 31 zero bytes.
pub open spec fn basepoint() -> Seq<u8> {
    seq![9u8].add(Seq::new(31, |i: int| 0u8))
}

/// What the X25519 function (RFC 7748) gives for a scalar and a point.
pub uninterp spec fn x25519_spec(scalar: Seq<u8>, point: Seq<u8>) -> Seq<u8>;

/// `x25519_dalek::x25519`: the clamped scalar times the point.
#[verifier::external_body]
fn x25519(k: &[u8], u: &[u8]) -> (r: [u8; 32])
    requires
        k@.len() == 32,
        u@.len() == 32,
    ensures
        r@ == x25519_spec(k@, u@),
{
    x25519_dalek::x25519(k.try_into().unwrap(), u.try_into().unwrap())
}

/// The X25519 base point (`x25519_dalek::X25519_BASEPOINT_BYTES`): 9
/// followed by 31 zero bytes.
fn x25519_basepoint() -> (r: [u8; 32])
    ensures
        r@ == basepoint(),
{
    let mut b = [0u8; 32];
    b[0] = 9;
    assert(b@ =~= basepoint());
    b
}

/// `EphemeralSecret::random_from_rng(OsRng)`, `PublicKey::from` and
/// `diffie_hellman`: a fresh secret's public key and the secret it shares
/// with `their_public`. The secret is random and is not given out, so
/// neither key is stated; what is claimed is the key agreement the crate
/// documents: whoever holds a secret `t` whose public key is `their_public`
/// gets the same shared secret as `x25519(t, public)`.
#[verifier::external_body]
fn ephemeral_agreement(their_public: &[u8]) -> (r: ([u8; 32], [u8; 32]))
    requires
        their_public@.len() == 32,
    ensures
        forall|t: Seq<u8>| t.len() == 32 && their_public@ == x25519_spec(t, basepoint()) ==> #[trigger] x25519_spec(t, r.0@) == r.1@,
{
    let secret = EphemeralSecret::random_from_rng(rand_core::OsRng);
    let public = PublicKey::from(&secret);
    let their: [u8; 32] = their_public.try_into().unwrap();
    let shared = secret.diffie_hellman(&PublicKey::from(their));
    (public.to_bytes(), shared.to_bytes())
}

/// The HMAC-SHA256 tag of a message under a key.
pub uninterp spec fn hmac_sha256_spec(key: Seq<u8>, message: Seq<u8>) -> Seq<u8>;

/// `Hmac::<Sha256>::new_from_slice`, `update` and `finalize`: the tag of the
/// message under the key. The crate takes a key of any length (its
/// `new_from_slice` always returns `Ok`).
#[verifier::external_body]
fn hmac_sha256(key: &[u8], message: &[u8]) -> (r: [u8; 32])
    ensures
        r@ == hmac_sha256_spec(key@, message@),
{
    let mut mac = <Hmac<Sha256> as Mac>::new_from_slice(key).expect("HMAC takes a key of any length");
    mac.update(message);
    let tag = mac.finalize().into_bytes();
    let mut out = [0u8; 32];
    out.copy_from_slice(&tag);
    out
}

/// HKDF-SHA256 with one block of output: the pseudorandom key is the tag of
/// the input key material under the salt, and the output the tag of the info
/// followed by the byte 1 under that key.
pub open spec fn hkdf_block(ikm: Seq<u8>, salt: Seq<u8>, info: Seq<u8>) -> Seq<u8> {
    hmac_sha256_spec(hmac_sha256_spec(salt, ikm), info.push(1u8))
}

/// One block of HKDF-SHA256.
fn hkdf_extract_expand(ikm: &[u8; 32], salt: &[u8], info: &[u8]) -> (r: [u8; 32])
    ensures
        r@ == hkdf_block(ikm@, salt@, info@),
{
    let prk = hmac_sha256(salt, ikm.as_slice());
    let mut message = slice_to_vec(info);
    message.push(1u8);
    hmac_sha256(prk.as_slice(), message.as_slice())
}

/// The AES-256-GCM key of a shared secret.
pub open spec fn identity_key(shared: Seq<u8>) -> Seq<u8> {
    hkdf_block(shared, SOVEREIGN_SALT.spec_bytes(), SOVEREIGN_INFO.spec_bytes())
}

/// The ciphertext and tag AES-256-GCM makes of a plaintext, with no
/// associated data.
pub uninterp spec fn gcm_seal_spec(key: Seq<u8>, nonce: Seq<u8>, plaintext: Seq<u8>) -> Seq<u8>;

/// What AES-256-GCM opens a ciphertext and tag to, with no associated data:
/// nothing when the tag does not match.
pub uninterp spec fn gcm_open_spec(key: Seq<u8>, nonce: Seq<u8>, ciphertext: Seq<u8>) -> Option<Seq<u8>>;

/// `Aes256Gcm::encrypt`: the ciphertext with its tag, which opens under the
/// same key and nonce to the plaintext; the crate's message when the
/// plaintext is longer than 2^36 bytes, its only refusal.
#[verifier::external_body]
fn gcm_seal(key: &[u8; 32], nonce: &[u8; 12], plaintext: &[u8]) -> (r: Result<Vec<u8>, String>)
    ensures
        r matches Ok(c) ==> c@ == gcm_seal_spec(key@, nonce@, plaintext@)
            && gcm_open_spec(key@, nonce@, c@) == Some(plaintext@),
        plaintext@.len() <= 0x10_0000_0000 ==> r is Ok,
{
    let cipher = Aes256Gcm::new(Key::<Aes256Gcm>::from_slice(key));
    match cipher.encrypt(Nonce::from_slice(nonce), plaintext) {
        Ok(c) => Ok(c),
        Err(e) => Err(e.to_string()),
    }
}

/// `Aes256Gcm::decrypt`: the plaintext, or the crate's message when the tag
/// does not match.
#[verifier::external_body]
fn gcm_open(key: &[u8; 32], nonce: &[u8], ciphertext: &[u8]) -> (r: Result<Vec<u8>, String>)
    requires
        nonce@.len() == 12,
    ensures
        r matches Ok(p) ==> gcm_open_spec(key@, nonce@, ciphertext@) == Some(p@),
        r is Err ==> gcm_open_spec(key@, nonce@, ciphertext@) is None,
{
    let cipher = Aes256Gcm::new(Key::<Aes256Gcm>::from_slice(key));
    match cipher.decrypt(Nonce::from_slice(nonce), ciphertext) {
        Ok(p) => Ok(p),
        Err(e) => Err(e.to_string()),
    }
}

/// `rand::thread_rng().fill_bytes`: twelve random bytes; nothing is promised
/// of them.
#[verifier::external_body]
fn random_nonce() -> (r: [u8; 12]) {
    let mut nonce = [0u8; 12];
    rand::thread_rng().fill_bytes(&mut nonce);
    nonce
}

#[verifier::external_type_specification]
#[verifier::external_body]
pub struct ExJsonValue(serde_json::Value);

/// The JSON bytes of an object with four fields: under `keys[0]` to
/// `keys[2]` the three texts, under `keys[3]` the tenant (as hyphenated UUID
/// text).
pub uninterp spec fn identity_json(keys: Seq<Seq<char>>, tenant_id: u128, legal_name: Seq<char>, lei: Seq<char>, jurisdiction: Seq<char>) -> Seq<u8>;

/// `serde_json::to_vec` of the object whose fields `keys[0]` to `keys[2]`
/// hold the three texts and `keys[3]` the `Uuid` of the number, as serde
/// writes it: the bytes. Writing a `Value` whose map keys are strings into a
/// `Vec` cannot fail, nor can turning a `Uuid` into a `Value`, so the result
/// is always `Ok`.
#[verifier::external_body]
fn identity_plaintext(keys: &[&str; 4], tenant_id: u128, legal_name: &str, lei: &str, jurisdiction: &str) -> (r: Result<Vec<u8>, String>)
    ensures
        r is Ok,
        r matches Ok(v) ==> v@ == identity_json(keys@.map_values(|k: &str| k@), tenant_id, legal_name@, lei@, jurisdiction@),
{
    let mut object = serde_json::Map::new();
    object.insert(keys[0].to_owned(), serde_json::Value::from(legal_name));
    object.insert(keys[1].to_owned(), serde_json::Value::from(lei));
    object.insert(keys[2].to_owned(), serde_json::Value::from(jurisdiction));
    let tenant = serde_json::to_value(uuid::Uuid::from_u128(tenant_id)).map_err(|e| e.to_string())?;
    object.insert(keys[3].to_owned(), tenant);
    serde_json::to_vec(&serde_json::Value::Object(object)).map_err(|e| e.to_string())
}

/// Whether bytes are one JSON value.
pub uninterp spec fn json_parses(bytes: Seq<u8>) -> bool;

/// `serde_json::from_slice::<Value>`: the JSON value of the bytes, or the
/// crate's message when they are not one.
#[verifier::external_body]
fn parse_json(bytes: &[u8]) -> (r: Result<serde_json::Value, String>)
    ensures
        r is Ok <==> json_parses(bytes@),
{
    serde_json::from_slice::<serde_json::Value>(bytes).map_err(|e| e.to_string())
}

/// A regulator's public key in hexadecimal.
#[derive(Debug, Clone)]
pub struct RegulatorKeypair {
    pub public_key_hex: String,
}

/// A tenant's identity sealed for the regulator: twelve bytes of nonce then
/// the AES-256-GCM ciphertext, and the ephemeral public key in hexadecimal.
#[derive(Debug, Clone)]
pub struct SovereignIdentity {
    pub tenant_id: u128,
    pub encrypted_blob: Vec<u8>,
    pub ephemeral_pubkey_hex: String,
    pub created_at: i64,
}

impl SovereignIdentity {
    /// Whether two records hold the same data.
    pub open spec fn same_as(&self, other: &SovereignIdentity) -> bool {
        &&& self.tenant_id == other.tenant_id
        &&& self.encrypted_blob@ == other.encrypted_blob@
        &&& self.ephemeral_pubkey_hex@ == other.ephemeral_pubkey_hex@
        &&& self.created_at == other.created_at
    }

    /// A copy holding the same data.
    pub fn duplicate(&self) -> (r: SovereignIdentity)
        ensures
            r.same_as(self),
    {
        SovereignIdentity {
            tenant_id: self.tenant_id,
            encrypted_blob: self.encrypted_blob.clone(),
            ephemeral_pubkey_hex: self.ephemeral_pubkey_hex.clone(),
            created_at: self.created_at,
        }
    }
}

/// What a tenant asks to have sealed.
#[derive(Debug, Clone)]
pub struct SovereignIdentityRequest {
    pub tenant_id: u128,
    pub legal_name: String,
    pub lei: String,
    pub jurisdiction: String,
}

/// The field names of an identity's plaintext, in the order the texts and
/// the tenant are given.
pub open spec fn identity_keys() -> Seq<Seq<char>> {
    seq!["legal_name"@, "lei"@, "jurisdiction"@, "tenant_id"@]
}

/// The plaintext sealed for a request.
pub open spec fn request_json(request: SovereignIdentityRequest) -> Seq<u8> {
    identity_json(identity_keys(), request.tenant_id, request.legal_name@, request.lei@, request.jurisdiction@)
}

/// What the holder of `secret` opens a blob to, given the ephemeral public
/// key: the key agreed from the two, stretched by HKDF, opens the bytes after
/// the twelve of the nonce.
pub open spec fn opened(blob: Seq<u8>, ephemeral: Seq<u8>, secret: Seq<u8>) -> Option<Seq<u8>> {
    if blob.len() < 12 {
        None
    } else {
        gcm_open_spec(identity_key(x25519_spec(secret, ephemeral)), blob.take(12), blob.skip(12))
    }
}

/// Whether a record is sealed for the holder of the secret of `public`: its
/// blob holds a nonce, its ephemeral key reads as 32 bytes, and whoever
/// holds a secret whose public key is `public` opens it to `plaintext`.
pub open spec fn sealed_for(id: SovereignIdentity, public: Seq<u8>, plaintext: Seq<u8>) -> bool {
    &&& id.encrypted_blob@.len() >= 12
    &&& hex_bytes(id.ephemeral_pubkey_hex@) matches Some(e)
    &&& e.len() == 32
    &&& forall|t: Seq<u8>| t.len() == 32 && public == x25519_spec(t, basepoint())
        ==> #[trigger] opened(id.encrypted_blob@, e, t) == Some(plaintext)
}

/// Why a record cannot be opened with a secret given in hexadecimal, checked
/// in this order; nothing when both keys read as 32 bytes and the blob holds
/// a nonce.
pub open spec fn decrypt_refusal(id: SovereignIdentity, secret_hex: Seq<char>) -> Option<Seq<char>> {
    match hex_bytes(secret_hex) {
        None => Some("invalid regulator secret hex"@),
        Some(t) => if t.len() != 32 {
            Some("regulator secret must be 32 bytes"@)
        } else {
            match hex_bytes(id.ephemeral_pubkey_hex@) {
                None => Some("invalid ephemeral pubkey hex"@),
                Some(e) => if e.len() != 32 {
                    Some("ephemeral pubkey must be 32 bytes"@)
                } else if id.encrypted_blob@.len() < 12 {
                    Some("ciphertext too short"@)
                } else {
                    None
                },
            }
        },
    }
}

/// What a record opens to with a secret given in hexadecimal, once neither
/// key nor blob is refused.
pub open spec fn opened_with(id: SovereignIdentity, secret_hex: Seq<char>) -> Option<Seq<u8>> {
    opened(id.encrypted_blob@, hex_bytes(id.ephemeral_pubkey_hex@)->0, hex_bytes(secret_hex)->0)
}

/// Whether the record at index `i` of `s` is the tenant's.
pub open spec fn holds_tenant(s: Seq<SovereignIdentity>, tenant_id: u128, i: int) -> bool {
    0 <= i < s.len() && s[i].tenant_id == tenant_id
}

/// Whether some record of `s` is the tenant's.
pub open spec fn has_tenant(s: Seq<SovereignIdentity>, tenant_id: u128) -> bool {
    exists|i: int| holds_tenant(s, tenant_id, i)
}

/// Whether no two records of `s` are of the same tenant.
pub open spec fn tenants_unique(s: Seq<SovereignIdentity>) -> bool {
    forall|i: int, j: int| 0 <= i < j < s.len() ==> s[i].tenant_id != s[j].tenant_id
}

/// The tenant's record, if any.
pub open spec fn identity_of(s: Seq<SovereignIdentity>, tenant_id: u128) -> Option<SovereignIdentity> {
    if has_tenant(s, tenant_id) {
        Some(s[choose|i: int| holds_tenant(s, tenant_id, i)])
    } else {
        None
    }
}

/// With tenants unique, the record at an index holding a tenant is the one
/// looked up for it.
pub proof fn lemma_identity_at(s: Seq<SovereignIdentity>, tenant_id: u128, i: int)
    requires
        tenants_unique(s),
        holds_tenant(s, tenant_id, i),
    ensures
        identity_of(s, tenant_id) == Some(s[i]),
{
    let k = choose|k: int| holds_tenant(s, tenant_id, k);
    assert(holds_tenant(s, tenant_id, k));
    if k != i {
        if k < i {
            assert(s[k].tenant_id != s[i].tenant_id);
        } else {
            assert(s[i].tenant_id != s[k].tenant_id);
        }
    }
}

/// The index of the tenant's record, if any.
fn tenant_position(v: &Vec<SovereignIdentity>, tenant_id: u128) -> (r: Option<usize>)
    ensures
        match r {
            Some(i) => holds_tenant(v@, tenant_id, i as int),
            None => !has_tenant(v@, tenant_id),
        },
{
    let mut i: usize = 0;
    while i < v.len()
        invariant
            i <= v@.len(),
            forall|j: int| 0 <= j < i ==> v@[j].tenant_id != tenant_id,
        decreases v@.len() - i,
    {
        if v[i].tenant_id == tenant_id {
            return Some(i);
        }
        i = i + 1;
    }
    assert forall|j: int| !holds_tenant(v@, tenant_id, j) by {}
    None
}

/// The sealed identities, one per tenant, and the regulator's public key.
pub struct SovereignIdentityStore {
    identities: Vec<SovereignIdentity>,
    regulator_public: Vec<u8>,
}

impl SovereignIdentityStore {
    #[verifier::type_invariant]
    closed spec fn inv(&self) -> bool {
        &&& tenants_unique(self.identities@)
        &&& self.regulator_public@.len() == 32
    }

    /// The records, one per tenant.
    pub closed spec fn records(&self) -> Seq<SovereignIdentity> {
        self.identities@
    }

    /// The regulator's public key.
    pub closed spec fn regulator(&self) -> Seq<u8> {
        self.regulator_public@
    }

    /// An empty store for the regulator whose public key the text spells in
    /// hexadecimal; refused when the text is not hexadecimal or not 32 bytes.
    pub fn new(regulator_public_hex: &str) -> (r: Result<SovereignIdentityStore, String>)
        ensures
            match hex_bytes(regulator_public_hex@) {
                None => r matches Err(e) && e@ == "invalid regulator public key hex"@,
                Some(b) => if b.len() != 32 {
                    r matches Err(e) && e@ == "regulator public key must be 32 bytes"@
                } else {
                    r matches Ok(st) && st.regulator() == b && st.records().len() == 0
                },
            },
    {
        let pub_bytes = match hex_decode(regulator_public_hex) {
            Ok(b) => b,
            Err(_) => return Err(owned("invalid regulator public key hex")),
        };
        if pub_bytes.len() != 32 {
            return Err(owned("regulator public key must be 32 bytes"));
        }
        Ok(SovereignIdentityStore { identities: Vec::new(), regulator_public: pub_bytes })
    }

    /// The number of sealed identities.
    pub fn identity_count(&self) -> (r: usize)
        ensures
            r == self.records().len(),
            tenants_unique(self.records()),
    {
        proof {
            use_type_invariant(self);
        }
        self.identities.len()
    }

    /// A copy of the tenant's sealed record, if there is one.
    pub fn get_encrypted(&self, tenant_id: u128) -> (r: Option<SovereignIdentity>)
        ensures
            match r {
                Some(id) => identity_of(self.records(), tenant_id) matches Some(rec) && id.same_as(&rec),
                None => identity_of(self.records(), tenant_id) is None,
            },
    {
        proof {
            use_type_invariant(self);
        }
        match tenant_position(&self.identities, tenant_id) {
            Some(i) => {
                proof {
                    lemma_identity_at(self.identities@, tenant_id, i as int);
                }
                Some(self.identities[i].duplicate())
            },
            None => None,
        }
    }

    /// Keeps a record for its tenant, replacing the tenant's earlier one.
    fn put_identity(&mut self, record: SovereignIdentity)
        ensures
            final(self).regulator() == old(self).regulator(),
            identity_of(final(self).records(), record.tenant_id) == Some(record),
            forall|t: u128| t != record.tenant_id ==> identity_of(final(self).records(), t) == identity_of(old(self).records(), t),
            final(self).records().len() == old(self).records().len() + if has_tenant(old(self).records(), record.tenant_id) { 0int } else { 1int },
    {
        proof {
            use_type_invariant(&*self);
        }
        let tenant_id = record.tenant_id;
        let mut v: Vec<SovereignIdentity> = Vec::new();
        std::mem::swap(&mut v, &mut self.identities);
        let ghost before = v@;
        let ghost k: int;
        match tenant_position(&v, tenant_id) {
            Some(i) => {
                let _replaced = v.remove(i);
                v.insert(i, record);
                proof {
                    k = i as int;
                    assert forall|j: int| 0 <= j < v@.len() implies #[trigger] v@[j].tenant_id == before[j].tenant_id by {}
                }
            },
            None => {
                v.push(record);
                proof {
                    k = before.len() as int;
                    assert forall|j: int| 0 <= j < before.len() implies #[trigger] v@[j].tenant_id != tenant_id by {
                        assert(!holds_tenant(before, tenant_id, j));
                    }
                }
            },
        }
        proof {
            lemma_identity_at(v@, tenant_id, k);
            assert forall|t: u128| t != tenant_id implies identity_of(v@, t) == identity_of(before, t) by {
                if has_tenant(before, t) {
                    let j = choose|j: int| holds_tenant(before, t, j);
                    assert(j != k);
                    assert(v@[j] == before[j]);
                    lemma_identity_at(before, t, j);
                    lemma_identity_at(v@, t, j);
                } else {
                    assert forall|j: int| !holds_tenant(v@, t, j) by {
                        if 0 <= j < v@.len() && j != k {
                            assert(v@[j] == before[j]);
                            assert(!holds_tenant(before, t, j));
                        }
                    }
                }
            }
        }
        self.identities = v;
    }

    /// Seals the request's identity for the regulator under a fresh
    /// ephemeral key and nonce, and keeps the record for the tenant (replacing
    /// an earlier one). The record opens, for whoever holds the regulator's
    /// secret, to the request's JSON. Refused, with nothing kept, only when
    /// the JSON is too long for AES-GCM (over 2^36 bytes).
    pub fn encrypt_identity(&mut self, request: &SovereignIdentityRequest) -> (r: Result<SovereignIdentity, String>)
        ensures
            final(self).regulator() == old(self).regulator(),
            r matches Ok(id) ==> {
                &&& id.tenant_id == request.tenant_id
                &&& sealed_for(id, old(self).regulator(), request_json(*request))
                &&& identity_of(final(self).records(), request.tenant_id) matches Some(rec)
                &&& rec.same_as(&id)
                &&& forall|t: u128| t != request.tenant_id ==> identity_of(final(self).records(), t) == identity_of(old(self).records(), t)
            },
            request_json(*request).len() <= 0x10_0000_0000 ==> r is Ok,
            r matches Err(e) ==> final(self).records() == old(self).records()
                && request_json(*request).len() > 0x10_0000_0000
                && "encryption failed: "@.is_prefix_of(e@),
    {
        proof {
            use_type_invariant(&*self);
        }
        let (ephemeral_public, shared) = ephemeral_agreement(self.regulator_public.as_slice());
        let aes_key = hkdf_extract_expand(&shared, SOVEREIGN_SALT.as_bytes(), SOVEREIGN_INFO.as_bytes());
        let nonce = random_nonce();
        let keys: [&str; 4] = ["legal_name", "lei", "jurisdiction", "tenant_id"];
        assert(keys@.map_values(|k: &str| k@) =~= identity_keys());
        let plaintext = match identity_plaintext(
            &keys,
            request.tenant_id,
            request.legal_name.as_str(),
            request.lei.as_str(),
            request.jurisdiction.as_str(),
        ) {
            Ok(p) => p,
            Err(m) => {
                let mut e = owned("serialization error: ");
                push_str(&mut e, m.as_str());
                return Err(e);
            },
        };
        let mut encrypted = match gcm_seal(&aes_key, &nonce, plaintext.as_slice()) {
            Ok(c) => c,
            Err(m) => {
                let mut e = owned("encryption failed: ");
                push_str(&mut e, m.as_str());
                return Err(e);
            },
        };
        let ghost sealed = encrypted@;
        let mut blob = slice_to_vec(nonce.as_slice());
        blob.append(&mut encrypted);
        let identity = SovereignIdentity {
            tenant_id: request.tenant_id,
            encrypted_blob: blob,
            ephemeral_pubkey_hex: hex_encode(ephemeral_public.as_slice()),
            created_at: utc_millis(),
        };
        proof {
            lemma_hex_roundtrip(ephemeral_public@);
            assert(identity.encrypted_blob@.take(12) =~= nonce@);
            assert(identity.encrypted_blob@.skip(12) =~= sealed);
            assert forall|t: Seq<u8>| t.len() == 32 && self.regulator_public@ == x25519_spec(t, basepoint())
                implies #[trigger] opened(identity.encrypted_blob@, ephemeral_public@, t) == Some(plaintext@) by {
                assert(x25519_spec(t, ephemeral_public@) == shared@);
            }
        }
        self.put_identity(identity.duplicate());
        Ok(identity)
    }

    /// What a sealed record holds, opened with the regulator's secret given
    /// in hexadecimal: the plaintext bytes, or why it could not be opened.
    pub fn decrypt_identity_bytes(&self, identity: &SovereignIdentity, regulator_secret_hex: &str) -> (r: Result<Vec<u8>, String>)
        ensures
            decrypt_refusal(*identity, regulator_secret_hex@) matches Some(m) ==> r matches Err(e) && e@ == m,
            decrypt_refusal(*identity, regulator_secret_hex@) is None ==> match opened_with(*identity, regulator_secret_hex@) {
                Some(p) => r matches Ok(v) && v@ == p,
                None => r matches Err(e) && "decryption failed: "@.is_prefix_of(e@),
            },
    {
        let secret = match hex_decode(regulator_secret_hex) {
            Ok(b) => b,
            Err(_) => return Err(owned("invalid regulator secret hex")),
        };
        if secret.len() != 32 {
            return Err(owned("regulator secret must be 32 bytes"));
        }
        let ephemeral = match hex_decode(identity.ephemeral_pubkey_hex.as_str()) {
            Ok(b) => b,
            Err(_) => return Err(owned("invalid ephemeral pubkey hex")),
        };
        if ephemeral.len() != 32 {
            return Err(owned("ephemeral pubkey must be 32 bytes"));
        }
        let shared = x25519(secret.as_slice(), ephemeral.as_slice());
        let aes_key = hkdf_extract_expand(&shared, SOVEREIGN_SALT.as_bytes(), SOVEREIGN_INFO.as_bytes());
        let blob = &identity.encrypted_blob;
        if blob.len() < NONCE_SIZE {
            return Err(owned("ciphertext too short"));
        }
        let nonce = slice_subrange(blob.as_slice(), 0, NONCE_SIZE);
        let ciphertext = slice_subrange(blob.as_slice(), NONCE_SIZE, blob.len());
        proof {
            assert(nonce@ =~= blob@.take(12));
            assert(ciphertext@ =~= blob@.skip(12));
        }
        match gcm_open(&aes_key, nonce, ciphertext) {
            Ok(p) => Ok(p),
            Err(m) => {
                let mut e = owned("decryption failed: ");
                push_str(&mut e, m.as_str());
                Err(e)
            },
        }
    }

    /// A sealed record opened with the regulator's secret given in
    /// hexadecimal and read as JSON: refused as `decrypt_identity_bytes`
    /// refuses, or when the plaintext is not JSON.
    pub fn decrypt_identity(&self, identity: &SovereignIdentity, regulator_secret_hex: &str) -> (r: Result<serde_json::Value, String>)
        ensures
            decrypt_refusal(*identity, regulator_secret_hex@) matches Some(m) ==> r matches Err(e) && e@ == m,
            decrypt_refusal(*identity, regulator_secret_hex@) is None ==> match opened_with(*identity, regulator_secret_hex@) {
                Some(p) => (r is Ok <==> json_parses(p))
                    && (r matches Err(e) ==> "deserialization failed: "@.is_prefix_of(e@)),
                None => r matches Err(e) && "decryption failed: "@.is_prefix_of(e@),
            },
    {
        let plaintext = match self.decrypt_identity_bytes(identity, regulator_secret_hex) {
            Ok(p) => p,
            Err(e) => return Err(e),
        };
        match parse_json(plaintext.as_slice()) {
            Ok(v) => Ok(v),
            Err(m) => {
                let mut e = owned("deserialization failed: ");
                push_str(&mut e, m.as_str());
                Err(e)
            },
        }
    }
}

/// A record sealed for the holder of a secret opens, with that secret in
/// lowercase hexadecimal, to what was sealed: neither key nor blob is
/// refused, and the plaintext comes back.
pub proof fn lemma_sealed_identity_opens(id: SovereignIdentity, secret: Seq<u8>, plaintext: Seq<u8>)
    requires
        secret.len() == 32,
        sealed_for(id, x25519_spec(secret, basepoint()), plaintext),
    ensures
        decrypt_refusal(id, hex_lower(secret)) is None,
        opened_with(id, hex_lower(secret)) == Some(plaintext),
{
    lemma_hex_roundtrip(secret);
    let e = hex_bytes(id.ephemeral_pubkey_hex@)->0;
    assert(opened(id.encrypted_blob@, e, secret) == Some(plaintext));
}

/// A fresh regulator key pair in lowercase hexadecimal: 32 random secret
/// bytes and their X25519 public key.
pub fn generate_regulator_keypair_hex() -> (r: (String, String))
    ensures
        exists|secret: Seq<u8>| {
            &&& secret.len() == 32
            &&& r.0@ == hex_lower(secret)
            &&& x25519_spec(secret, basepoint()).len() == 32
            &&& r.1@ == hex_lower(x25519_spec(secret, basepoint()))
        },
{
    let secret_bytes = random_32();
    let base = x25519_basepoint();
    let public = x25519(secret_bytes.as_slice(), base.as_slice());
    (hex_encode(secret_bytes.as_slice()), hex_encode(public.as_slice()))
}


/// The regulator's public key, in lowercase hexadecimal, for its secret
/// given in hexadecimal: refused when the text is not hexadecimal or not 32
/// bytes.
pub fn regulator_public_key_hex(secret_hex: &str) -> (r: Result<String, String>)
    ensures
        match hex_bytes(secret_hex@) {
            None => r matches Err(e) && e@ == "regulator secret must be hex"@,
            Some(t) => if t.len() != 32 {
                r matches Err(e) && e@ == "regulator secret must be 32 bytes"@
            } else {
                r matches Ok(p) && p@ == hex_lower(x25519_spec(t, basepoint()))
            },
        },
{
    let secret = match hex_decode(secret_hex) {
        Ok(b) => b,
        Err(_) => return Err(owned("regulator secret must be hex")),
    };
    if secret.len() != 32 {
        return Err(owned("regulator secret must be 32 bytes"));
    }
    let base = x25519_basepoint();
    let public = x25519(secret.as_slice(), base.as_slice());
    Ok(hex_encode(public.as_slice()))
}

} // verus!
