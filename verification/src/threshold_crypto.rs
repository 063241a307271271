//! Threshold encryption of orders for the encrypted mempool: a group key
//! from the validators' public keys, a SHA-256 keystream envelope with a
//! commitment and a response proof, per-validator decryption shares and
//! their XOR combination.

use vstd::prelude::*;
use vstd::slice::slice_to_vec;
use rand::Rng;
use sha2::{Digest, Sha256};
use crate::text::{hex_bytes, hex_decode, owned, push_str};
use crate::clock::unix_nanos;

verus! {

/// The SHA-256 digest of bytes.
pub uninterp spec fn sha256_spec(data: Seq<u8>) -> Seq<u8>;

/// `Sha256::digest`: the digest of the bytes, which is 32 bytes long.
#[verifier::external_body]
pub(crate) fn sha256(data: &[u8]) -> (r: Vec<u8>)
    ensures
        r@ == sha256_spec(data@),
        r@.len() == 32,
{
    Sha256::digest(data).to_vec()
}

/// `rand::thread_rng().gen()`: 32 random bytes; nothing is promised of them.
#[verifier::external_body]
pub(crate) fn random_32() -> (r: [u8; 32]) {
    rand::thread_rng().gen()
}

/// The public parameters of the distributed key generation.
#[derive(Debug, Clone)]
pub struct DKGPublicParams {
    pub threshold: usize,
    pub total_validators: usize,
    pub generator: Vec<u8>,
    pub prime: Vec<u8>,
    pub validator_pubkeys: Vec<Vec<u8>>,
    pub group_pubkey: Vec<u8>,
}

#[derive(Debug, Clone)]
pub struct ValidatorSecretShare {
    pub validator_id: usize,
    pub secret_share: Vec<u8>,
    pub public_poly: Vec<Vec<u8>>,
}

#[derive(Debug, Clone)]
pub struct ZKProof {
    pub challenge: Vec<u8>,
    pub response: Vec<u8>,
    pub commitment: Vec<u8>,
}

#[derive(Debug, Clone)]
pub struct EncryptedOrder {
    pub order_id: String,
    pub ciphertext: Vec<u8>,
    pub ephemeral_pubkey: Vec<u8>,
    pub commitment: Vec<u8>,
    pub proof: ZKProof,
    pub timestamp_ns: u64,
}

#[derive(Debug, Clone)]
pub struct DecryptionShare {
    pub validator_id: usize,
    pub share: Vec<u8>,
    pub proof: ZKProof,
}

#[derive(Debug, Clone)]
pub struct BatchDecryptionResult {
    pub orders: Vec<DecryptedOrder>,
    pub decryption_proof: ZKProof,
}

#[derive(Debug, Clone)]
pub struct DecryptedOrder {
    pub order_id: String,
    pub user_id: String,
    pub pair: String,
    pub side: String,
    pub price: u64,
    pub quantity: u64,
    pub track: u8,
    pub nonce: u64,
}

/// The bytes of all parts, one after another.
pub open spec fn concat_all(parts: Seq<Seq<u8>>) -> Seq<u8>
    decreases parts.len(),
{
    if parts.len() == 0 {
        Seq::empty()
    } else {
        concat_all(parts.drop_last()) + parts.last()
    }
}

/// `data` XOR-ed with the keystream `key`, repeated every 32 bytes.
pub open spec fn xor_keystream(data: Seq<u8>, key: Seq<u8>) -> Seq<u8> {
    Seq::new(data.len(), |i: int| data[i] ^ key[i % 32])
}

/// XOR-ing twice with the same keystream gives the data back.
pub proof fn lemma_xor_keystream_involution(data: Seq<u8>, key: Seq<u8>)
    ensures
        xor_keystream(xor_keystream(data, key), key) == data,
{
    assert forall|i: int| 0 <= i < data.len() implies #[trigger] xor_keystream(xor_keystream(data, key), key)[i] == data[i] by {
        let a = data[i];
        let b = key[i % 32];
        assert((a ^ b) ^ b == a) by (bit_vector);
    }
    assert(xor_keystream(xor_keystream(data, key), key) =~= data);
}

/// Bit `j` of the challenge, counting from the low bit of its first byte.
pub open spec fn challenge_bit(challenge: Seq<u8>, j: int) -> bool {
    (challenge[j / 8] >> ((j % 8) as u8)) & 1u8 == 1u8
}

/// A response byte after folding in the secret bytes selected by the first
/// `n` challenge bits.
pub open spec fn zk_fold(byte: u8, challenge: Seq<u8>, secret: Seq<u8>, n: int) -> u8
    decreases n,
{
    if n <= 0 {
        byte
    } else {
        let prev = zk_fold(byte, challenge, secret, n - 1);
        if challenge_bit(challenge, n - 1) { prev ^ secret[(n - 1) % 32] } else { prev }
    }
}

/// The proof a holder of `secret` gives for a ciphertext: the challenge is
/// the digest of ciphertext, ephemeral key and commitment; each plaintext
/// byte is answered with the secret bytes the challenge selects; the
/// commitment bytes are secret, ephemeral key and challenge.
pub open spec fn spec_zk_proof(ciphertext: Seq<u8>, ephemeral: Seq<u8>, commitment: Seq<u8>, plaintext: Seq<u8>, secret: Seq<u8>) -> (Seq<u8>, Seq<u8>, Seq<u8>) {
    let challenge = sha256_spec(ciphertext + ephemeral + commitment);
    (
        challenge,
        Seq::new(plaintext.len(), |i: int| zk_fold(plaintext[i], challenge, secret, 32)),
        secret + ephemeral + challenge,
    )
}

pub open spec fn proof_matches(p: ZKProof, spec: (Seq<u8>, Seq<u8>, Seq<u8>)) -> bool {
    p.challenge@ == spec.0 && p.response@ == spec.1 && p.commitment@ == spec.2
}

pub(crate) fn concat2(a: &[u8], b: &[u8]) -> (r: Vec<u8>)
    ensures
        r@ == a@ + b@,
{
    let mut v = slice_to_vec(a);
    let mut i: usize = 0;
    while i < b.len()
        invariant
            i <= b@.len(),
            v@ == a@ + b@.take(i as int),
        decreases b@.len() - i,
    {
        v.push(b[i]);
        assert(v@ =~= a@ + b@.take(i + 1));
        i = i + 1;
    }
    assert(b@.take(b@.len() as int) =~= b@);
    v
}

fn xor_with_keystream(data: &[u8], key: &[u8]) -> (r: Vec<u8>)
    requires
        key@.len() >= 32,
    ensures
        r@ == xor_keystream(data@, key@),
{
    let mut out: Vec<u8> = Vec::new();
    let mut i: usize = 0;
    while i < data.len()
        invariant
            i <= data@.len(),
            key@.len() >= 32,
            out@ == xor_keystream(data@, key@).take(i as int),
        decreases data@.len() - i,
    {
        out.push(data[i] ^ key[i % 32]);
        assert(out@ =~= xor_keystream(data@, key@).take(i + 1));
        i = i + 1;
    }
    assert(xor_keystream(data@, key@).take(data@.len() as int) =~= xor_keystream(data@, key@));
    out
}

fn bytes_eq(a: &[u8], b: &[u8]) -> (r: bool)
    ensures
        r == (a@ == b@),
{
    if a.len() != b.len() {
        return false;
    }
    let mut i: usize = 0;
    while i < a.len()
        invariant
            i <= a@.len(),
            a@.len() == b@.len(),
            forall|j: int| 0 <= j < i ==> a@[j] == b@[j],
        decreases a@.len() - i,
    {
        if a[i] != b[i] {
            return false;
        }
        i = i + 1;
    }
    assert(a@ =~= b@);
    true
}

/// The group public key: the digest of all validator public keys in order.
pub fn compute_group_pubkey(pubkeys: &[Vec<u8>]) -> (r: Vec<u8>)
    ensures
        r@ == sha256_spec(concat_all(pubkeys@.map_values(|v: Vec<u8>| v@))),
{
    let ghost parts = pubkeys@.map_values(|v: Vec<u8>| v@);
    let mut all: Vec<u8> = Vec::new();
    let mut i: usize = 0;
    while i < pubkeys.len()
        invariant
            i <= pubkeys@.len(),
            parts == pubkeys@.map_values(|v: Vec<u8>| v@),
            all@ == concat_all(parts.take(i as int)),
        decreases pubkeys@.len() - i,
    {
        all = concat2(all.as_slice(), pubkeys[i].as_slice());
        assert(parts.take(i + 1).drop_last() =~= parts.take(i as int));
        i = i + 1;
    }
    assert(parts.take(pubkeys@.len() as int) =~= parts);
    sha256(all.as_slice())
}

/// The shared secret of a private and a public key: the digest of both.
pub fn ecdh(privkey: &[u8], pubkey: &[u8]) -> (r: Vec<u8>)
    ensures
        r@ == sha256_spec(privkey@ + pubkey@),
        r@.len() == 32,
{
    let both = concat2(privkey, pubkey);
    sha256(both.as_slice())
}

/// The commitment to a ciphertext: the digest of ciphertext and ephemeral key.
pub fn commit(ciphertext: &[u8], ephemeral: &[u8]) -> (r: Vec<u8>)
    ensures
        r@ == sha256_spec(ciphertext@ + ephemeral@),
        r@.len() == 32,
{
    let both = concat2(ciphertext, ephemeral);
    sha256(both.as_slice())
}

/// The response proof for a plaintext under `secret`.
pub fn generate_zk_proof(ciphertext: &[u8], ephemeral: &[u8], commitment: &[u8], plaintext: &[u8], secret: &[u8]) -> (r: ZKProof)
    requires
        plaintext@.len() == 0 || secret@.len() >= 32,
    ensures
        proof_matches(r, spec_zk_proof(ciphertext@, ephemeral@, commitment@, plaintext@, secret@)),
{
    let ce = concat2(ciphertext, ephemeral);
    let cec = concat2(ce.as_slice(), commitment);
    let challenge = sha256(cec.as_slice());
    let ghost spec = spec_zk_proof(ciphertext@, ephemeral@, commitment@, plaintext@, secret@);
    assert(challenge@ == spec.0);
    let mut response: Vec<u8> = Vec::new();
    let mut i: usize = 0;
    while i < plaintext.len()
        invariant
            i <= plaintext@.len(),
            plaintext@.len() == 0 || secret@.len() >= 32,
            challenge@.len() == 32,
            response@ == spec.1.take(i as int),
            spec == spec_zk_proof(ciphertext@, ephemeral@, commitment@, plaintext@, secret@),
            challenge@ == spec.0,
        decreases plaintext@.len() - i,
    {
        let mut computed = plaintext[i];
        let mut j: usize = 0;
        while j < 32
            invariant
                j <= 32,
                i < plaintext@.len(),
                secret@.len() >= 32,
                challenge@.len() == 32,
                computed == zk_fold(plaintext@[i as int], challenge@, secret@, j as int),
            decreases 32 - j,
        {
            let byte_idx = j / 8;
            let bit_idx = j % 8;
            let shift: u8 = bit_idx as u8;
            if (challenge[byte_idx] >> shift) & 1 == 1 {
                computed = computed ^ secret[j % 32];
            }
            j = j + 1;
        }
        response.push(computed);
        assert(response@ =~= spec.1.take(i + 1));
        i = i + 1;
    }
    assert(spec.1.take(plaintext@.len() as int) =~= spec.1);
    let sc = concat2(secret, ephemeral);
    let commitment_bytes = concat2(sc.as_slice(), challenge.as_slice());
    ZKProof { challenge, response, commitment: commitment_bytes }
}

fn random_32_vec() -> (r: Vec<u8>)
    ensures
        r@.len() == 32,
{
    let a = random_32();
    slice_to_vec(a.as_slice())
}

fn copy_bytes(v: &Vec<u8>) -> (r: Vec<u8>)
    ensures
        r@ == v@,
{
    slice_to_vec(v.as_slice())
}

fn copy_byte_vecs(v: &Vec<Vec<u8>>) -> (r: Vec<Vec<u8>>)
    ensures
        r@.len() == v@.len(),
        forall|i: int| 0 <= i < v@.len() ==> #[trigger] r@[i]@ == v@[i]@,
{
    let mut out: Vec<Vec<u8>> = Vec::new();
    let mut i: usize = 0;
    while i < v.len()
        invariant
            i <= v@.len(),
            out@.len() == i,
            forall|j: int| 0 <= j < i ==> #[trigger] out@[j]@ == v@[j]@,
        decreases v@.len() - i,
    {
        out.push(copy_bytes(&v[i]));
        i = i + 1;
    }
    out
}

impl ValidatorSecretShare {
    pub open spec fn same_as(&self, other: &ValidatorSecretShare) -> bool {
        &&& self.validator_id == other.validator_id
        &&& self.secret_share@ == other.secret_share@
        &&& self.public_poly@.len() == other.public_poly@.len()
        &&& forall|i: int| 0 <= i < self.public_poly@.len() ==> #[trigger] self.public_poly@[i]@ == other.public_poly@[i]@
    }

    /// A copy with the same id, share and polynomial.
    pub fn duplicate(&self) -> (r: ValidatorSecretShare)
        ensures
            r.same_as(self),
    {
        ValidatorSecretShare {
            validator_id: self.validator_id,
            secret_share: copy_bytes(&self.secret_share),
            public_poly: copy_byte_vecs(&self.public_poly),
        }
    }
}

/// The combination of the first `n` shares: their bytes XOR-ed position by
/// position over a zero buffer of the ciphertext's length.
pub open spec fn xor_combined(len: nat, shares: Seq<Seq<u8>>, n: int) -> Seq<u8>
    decreases n,
{
    if n <= 0 {
        Seq::new(len, |_i: int| 0u8)
    } else {
        let prev = xor_combined(len, shares, n - 1);
        let s = shares[n - 1];
        Seq::new(len, |i: int| if i < s.len() { prev[i] ^ s[i] } else { prev[i] })
    }
}

/// The DKG state of one validator.
pub struct ThresholdCrypto {
    params: DKGPublicParams,
    secret_share: Option<ValidatorSecretShare>,
}

/// The 2048-bit MODP group prime, in hex.
pub const DH_PRIME_HEX: &'static str = "ffffffffffffffffc90fdaa22168c234c4c6628b80dc1cd129024e088a67cc74020bbea63b139b22514a08798e3404ddef9519b3cd3a431b302b0a6df25f14374fe1356d6d51c245e485b576625e7ec6f44c42e9a637ed6b0bff5cb6f406b7edee386bfb5a899fa5ae9f24117c4b1fe649286651ece45b3dc2007cb8a163bf0598da48361c55d39a69163fa8fd24cf5f83655d23dca3ad961c62f356208552bb9ed529077096966d670c354e4abc9804f1746c08ca237327ffffffffffffffff";

impl ThresholdCrypto {
    pub closed spec fn spec_params(&self) -> DKGPublicParams {
        self.params
    }

    pub closed spec fn spec_share(&self) -> Option<ValidatorSecretShare> {
        self.secret_share
    }

    /// New parameters: generator 2, the MODP prime, a random 32-byte public
    /// key per validator and the group key derived from them.
    pub fn new(threshold: usize, total_validators: usize) -> (r: Result<ThresholdCrypto, String>)
        ensures
            match r {
                Ok(tc) => {
                    let p = tc.spec_params();
                    &&& p.threshold == threshold
                    &&& p.total_validators == total_validators
                    &&& p.generator@ == seq![2u8]
                    &&& hex_bytes(DH_PRIME_HEX@) == Some(p.prime@)
                    &&& p.validator_pubkeys@.len() == total_validators
                    &&& forall|i: int| 0 <= i < total_validators ==> (#[trigger] p.validator_pubkeys@[i])@.len() == 32
                    &&& p.group_pubkey@ == sha256_spec(concat_all(p.validator_pubkeys@.map_values(|v: Vec<u8>| v@)))
                    &&& tc.spec_share() is None
                },
                Err(m) => hex_bytes(DH_PRIME_HEX@) is None,
            },
    {
        let mut generator: Vec<u8> = Vec::new();
        generator.push(2);
        let prime = match hex_decode(DH_PRIME_HEX) {
            Ok(p) => p,
            Err(e) => {
                let mut m = owned("DHPrime hex decode: ");
                push_str(&mut m, e.as_str());
                return Err(m);
            },
        };
        let mut validator_pubkeys: Vec<Vec<u8>> = Vec::new();
        let mut i: usize = 0;
        while i < total_validators
            invariant
                i <= total_validators,
                validator_pubkeys@.len() == i,
                forall|j: int| 0 <= j < i ==> (#[trigger] validator_pubkeys@[j])@.len() == 32,
            decreases total_validators - i,
        {
            validator_pubkeys.push(random_32_vec());
            i = i + 1;
        }
        let group_pubkey = compute_group_pubkey(validator_pubkeys.as_slice());
        let params = DKGPublicParams { threshold, total_validators, generator, prime, validator_pubkeys, group_pubkey };
        Ok(ThresholdCrypto { params, secret_share: None })
    }

    /// Draws this validator's secret share and a random public polynomial of
    /// `threshold` coefficients, keeps the share and returns it.
    pub fn run_dkg(&mut self, validator_id: usize) -> (r: ValidatorSecretShare)
        ensures
            r.validator_id == validator_id,
            r.secret_share@.len() == 32,
            r.public_poly@.len() == old(self).spec_params().threshold,
            forall|i: int| 0 <= i < r.public_poly@.len() ==> (#[trigger] r.public_poly@[i])@.len() == 32,
            final(self).spec_share() matches Some(s) && s.same_as(&r),
            final(self).spec_params() == old(self).spec_params(),
    {
        let secret_share = random_32_vec();
        let mut public_poly: Vec<Vec<u8>> = Vec::new();
        let mut i: usize = 0;
        while i < self.params.threshold
            invariant
                i <= self.params.threshold,
                public_poly@.len() == i,
                forall|j: int| 0 <= j < i ==> (#[trigger] public_poly@[j])@.len() == 32,
            decreases self.params.threshold - i,
        {
            public_poly.push(random_32_vec());
            i = i + 1;
        }
        let share = ValidatorSecretShare { validator_id, secret_share, public_poly };
        self.secret_share = Some(share.duplicate());
        share
    }

    /// A copy of the share drawn by `run_dkg`, if any.
    pub fn get_secret_share(&self) -> (r: Option<ValidatorSecretShare>)
        ensures
            match (r, self.spec_share()) {
                (Some(a), Some(b)) => a.same_as(&b),
                (None, None) => true,
                _ => false,
            },
    {
        match &self.secret_share {
            Some(s) => Some(s.duplicate()),
            None => None,
        }
    }

    pub fn get_params(&self) -> (r: &DKGPublicParams)
        ensures
            *r == self.spec_params(),
    {
        &self.params
    }

    /// Envelope for an already serialised order: the plaintext XOR-ed with the
    /// keystream shared between a fresh ephemeral key and the group key, the
    /// commitment to ciphertext and ephemeral key, and the response proof.
    pub fn encrypt_serialized_order(&self, order_id: &str, plaintext: &[u8]) -> (r: EncryptedOrder)
        ensures
            r.order_id@ == order_id@,
            r.ephemeral_pubkey@.len() == 32,
            r.ciphertext@ == xor_keystream(plaintext@, sha256_spec(r.ephemeral_pubkey@ + self.spec_params().group_pubkey@)),
            r.commitment@ == sha256_spec(r.ciphertext@ + r.ephemeral_pubkey@),
            proof_matches(r.proof, spec_zk_proof(
                r.ciphertext@,
                r.ephemeral_pubkey@,
                r.commitment@,
                plaintext@,
                sha256_spec(r.ephemeral_pubkey@ + self.spec_params().group_pubkey@),
            )),
    {
        let ephemeral = random_32_vec();
        let shared_secret = ecdh(ephemeral.as_slice(), self.params.group_pubkey.as_slice());
        let ciphertext = xor_with_keystream(plaintext, shared_secret.as_slice());
        let commitment = commit(ciphertext.as_slice(), ephemeral.as_slice());
        let proof = generate_zk_proof(ciphertext.as_slice(), ephemeral.as_slice(), commitment.as_slice(), plaintext, shared_secret.as_slice());
        let timestamp_ns = unix_nanos();
        EncryptedOrder {
            order_id: owned(order_id),
            ciphertext,
            ephemeral_pubkey: ephemeral,
            commitment,
            proof,
            timestamp_ns,
        }
    }

    /// Whether the commitment matches the ciphertext and ephemeral key.
    pub fn verify_encrypted_order(&self, encrypted: &EncryptedOrder) -> (r: bool)
        ensures
            r == (sha256_spec(encrypted.ciphertext@ + encrypted.ephemeral_pubkey@) == encrypted.commitment@),
    {
        let expected = commit(encrypted.ciphertext.as_slice(), encrypted.ephemeral_pubkey.as_slice());
        bytes_eq(expected.as_slice(), encrypted.commitment.as_slice())
    }

    /// This validator's share of an encrypted order: the ciphertext XOR-ed
    /// with the keystream shared between its secret share and the ephemeral
    /// key, with the response proof; nothing before `run_dkg`.
    pub fn create_decryption_share(&self, encrypted: &EncryptedOrder) -> (r: Option<DecryptionShare>)
        ensures
            self.spec_share() is None ==> r is None,
            self.spec_share() matches Some(s) ==> (r matches Some(d) && {
                let key = sha256_spec(s.secret_share@ + encrypted.ephemeral_pubkey@);
                &&& d.validator_id == s.validator_id
                &&& d.share@ == xor_keystream(encrypted.ciphertext@, key)
                &&& proof_matches(d.proof, spec_zk_proof(encrypted.ciphertext@, encrypted.ephemeral_pubkey@, encrypted.commitment@, d.share@, key))
            }),
    {
        let share = match &self.secret_share {
            Some(s) => s,
            None => return None,
        };
        let shared_secret = ecdh(share.secret_share.as_slice(), encrypted.ephemeral_pubkey.as_slice());
        let plaintext = xor_with_keystream(encrypted.ciphertext.as_slice(), shared_secret.as_slice());
        let proof = generate_zk_proof(
            encrypted.ciphertext.as_slice(),
            encrypted.ephemeral_pubkey.as_slice(),
            encrypted.commitment.as_slice(),
            plaintext.as_slice(),
            shared_secret.as_slice(),
        );
        Some(DecryptionShare { validator_id: share.validator_id, share: plaintext, proof })
    }

    /// Combines the first `threshold` shares by XOR into a buffer of the
    /// ciphertext's length and proves it with the first share; nothing when
    /// fewer shares than the threshold are given. The decoded orders are
    /// read from the combined bytes by the caller.
    pub fn combine_decryption_shares(&self, encrypted: &EncryptedOrder, shares: &[DecryptionShare]) -> (r: Option<(Vec<u8>, ZKProof)>)
        requires
            shares@.len() >= self.spec_params().threshold ==> {
                &&& shares@.len() > 0
                &&& forall|k: int| 0 <= k < self.spec_params().threshold ==> (#[trigger] shares@[k]).share@.len() <= encrypted.ciphertext@.len()
                &&& shares@[0].share@.len() == 0 || shares@[0].share@.len() >= 32
            },
        ensures
            shares@.len() < self.spec_params().threshold ==> r is None,
            shares@.len() >= self.spec_params().threshold ==> (r matches Some((combined, proof)) && {
                &&& combined@ == xor_combined(
                    encrypted.ciphertext@.len(),
                    shares@.map_values(|d: DecryptionShare| d.share@),
                    self.spec_params().threshold as int,
                )
                &&& proof_matches(proof, spec_zk_proof(
                    encrypted.ciphertext@,
                    encrypted.ephemeral_pubkey@,
                    encrypted.commitment@,
                    shares@[0].share@,
                    shares@[0].share@,
                ))
            }),
    {
        let threshold = self.params.threshold;
        if shares.len() < threshold {
            return None;
        }
        let len = encrypted.ciphertext.len();
        let ghost parts = shares@.map_values(|d: DecryptionShare| d.share@);
        let mut combined: Vec<u8> = Vec::new();
        let mut z: usize = 0;
        while z < len
            invariant
                z <= len,
                combined@.len() == z,
                forall|j: int| 0 <= j < z ==> combined@[j] == 0u8,
            decreases len - z,
        {
            combined.push(0);
            z = z + 1;
        }
        assert(combined@ =~= xor_combined(len as nat, parts, 0));
        let mut k: usize = 0;
        while k < threshold
            invariant
                k <= threshold,
                threshold == self.params.threshold,
                shares@.len() >= threshold,
                len == encrypted.ciphertext@.len(),
                parts == shares@.map_values(|d: DecryptionShare| d.share@),
                forall|q: int| 0 <= q < threshold ==> (#[trigger] shares@[q]).share@.len() <= len,
                combined@ == xor_combined(len as nat, parts, k as int),
            decreases threshold - k,
        {
            let s = &shares[k].share;
            let ghost prev = combined@;
            assert(parts[k as int] == s@);
            let mut i: usize = 0;
            while i < s.len()
                invariant
                    i <= s@.len(),
                    s@.len() <= len,
                    combined@.len() == len,
                    forall|j: int| 0 <= j < i ==> combined@[j] == prev[j] ^ s@[j],
                    forall|j: int| i <= j < len ==> combined@[j] == prev[j],
                decreases s@.len() - i,
            {
                let b = combined[i];
                combined.set(i, b ^ s[i]);
                i = i + 1;
            }
            assert(combined@ =~= xor_combined(len as nat, parts, k + 1));
            k = k + 1;
        }
        let first = &shares[0].share;
        let proof = generate_zk_proof(
            encrypted.ciphertext.as_slice(),
            encrypted.ephemeral_pubkey.as_slice(),
            encrypted.commitment.as_slice(),
            first.as_slice(),
            first.as_slice(),
        );
        Some((combined, proof))
    }
}

} // verus!
