//! Identity management: a persistent ed25519 signing keypair, stored as a raw
//! 32-byte seed. Loading, generation, manual import of a base64 seed, nonce
//! signing, and the base64 form of the public key.

use vstd::prelude::*;

use base64::Engine;

verus! {

/// What base64 (standard alphabet, padded) encodes the given bytes to.
pub uninterp spec fn b64_of(bytes: Seq<u8>) -> Seq<char>;

/// What base64 (standard alphabet, padded) decodes the given text to, if it
/// is valid base64.
pub uninterp spec fn b64_decoded(text: Seq<char>) -> Option<Seq<u8>>;

/// The ed25519 public key derived from a 32-byte seed.
pub uninterp spec fn ed25519_pub_of(seed: Seq<u8>) -> Seq<u8>;

/// The ed25519 signature over `msg` by the key with the given seed. RFC 8032
/// signing is deterministic: the signature is a function of seed and message.
pub uninterp spec fn ed25519_sig_of(seed: Seq<u8>, msg: Seq<u8>) -> Seq<u8>;

/// Relies on base64's STANDARD engine `encode`: the output depends on the
/// input bytes alone, and decoding it gives the input back.
#[verifier::external_body]
fn b64_encode(bytes: &Vec<u8>) -> (r: String)
    ensures
        r@ == b64_of(bytes@),
        b64_decoded(r@) == Some(bytes@),
{
    base64::engine::general_purpose::STANDARD.encode(bytes)
}

/// Relies on base64's STANDARD engine `decode`: whether the text is valid
/// base64 and what it decodes to depend on the text alone.
#[verifier::external_body]
fn b64_decode(text: &str) -> (r: Option<Vec<u8>>)
    ensures
        match r {
            Some(v) => b64_decoded(text@) == Some(v@),
            None => b64_decoded(text@) is None,
        },
{
    base64::engine::general_purpose::STANDARD.decode(text).ok()
}

/// Relies on ed25519_dalek's SigningKey::from_bytes and verifying_key: the
/// public key is derived from the seed alone and is 32 bytes.
#[verifier::external_body]
fn ed25519_public_key(seed: &Vec<u8>) -> (r: Vec<u8>)
    requires
        seed@.len() == 32,
    ensures
        r@ == ed25519_pub_of(seed@),
        r@.len() == 32,
{
    let arr: [u8; 32] = seed.as_slice().try_into().unwrap();
    let sk = ed25519_dalek::SigningKey::from_bytes(&arr);
    sk.verifying_key().as_bytes().to_vec()
}

/// Relies on ed25519_dalek's Signer::sign: RFC 8032 signing, deterministic in
/// seed and message; the signature is 64 bytes.
#[verifier::external_body]
fn ed25519_sign_bytes(seed: &Vec<u8>, msg: &Vec<u8>) -> (r: Vec<u8>)
    requires
        seed@.len() == 32,
    ensures
        r@ == ed25519_sig_of(seed@, msg@),
        r@.len() == 64,
{
    let arr: [u8; 32] = seed.as_slice().try_into().unwrap();
    let sk = ed25519_dalek::SigningKey::from_bytes(&arr);
    ed25519_dalek::Signer::sign(&sk, msg.as_slice()).to_bytes().to_vec()
}

/// Relies on rand's thread_rng fill_bytes: 32 fresh bytes; nothing is assumed
/// about their values.
#[verifier::external_body]
fn random_seed() -> (r: Vec<u8>)
    ensures
        r@.len() == 32,
{
    let mut b = [0u8; 32];
    rand::RngCore::fill_bytes(&mut rand::thread_rng(), &mut b);
    b.to_vec()
}

#[derive(Debug, Clone, PartialEq, Eq, Structural)]
pub enum IdentityError {
    /// The stored key file exists but does not hold exactly 32 bytes.
    KeyCorrupt,
    /// A nonce to sign was not valid base64.
    DecodeError,
    /// A manually imported key was not valid base64.
    InvalidKeyFormat,
    /// A manually imported key decoded to something other than 32 bytes.
    InvalidKeyLength,
}

impl IdentityError {
    pub fn message(&self) -> (r: String)
        ensures
            self is KeyCorrupt ==> r@ == "Key file is corrupt (expected 32 bytes)"@,
            self is DecodeError ==> r@ == "Invalid base64 nonce"@,
            self is InvalidKeyFormat ==> r@ == "Invalid manual key format (expected Base64)"@,
            self is InvalidKeyLength ==> r@ == "Invalid manual key length (expected 32 bytes)"@,
    {
        match self {
            IdentityError::KeyCorrupt => "Key file is corrupt (expected 32 bytes)".to_owned(),
            IdentityError::DecodeError => "Invalid base64 nonce".to_owned(),
            IdentityError::InvalidKeyFormat => "Invalid manual key format (expected Base64)".to_owned(),
            IdentityError::InvalidKeyLength => "Invalid manual key length (expected 32 bytes)".to_owned(),
        }
    }
}

/// A signing identity: owns a 32-byte ed25519 seed.
pub struct Identity {
    seed: Vec<u8>,
}

impl Identity {
    pub closed spec fn seed_view(&self) -> Seq<u8> {
        self.seed@
    }

    pub closed spec fn wf(&self) -> bool {
        self.seed@.len() == 32
    }

    /// The raw seed, for the caller that persists it.
    pub fn seed_bytes(&self) -> (r: &Vec<u8>)
        ensures
            r@ == self.seed_view(),
    {
        &self.seed
    }

    /// A second handle on the same identity (the seed is copied).
    pub fn duplicate(&self) -> (r: Identity)
        ensures
            r.seed_view() == self.seed_view(),
            r.wf() == self.wf(),
    {
        Identity { seed: clone_bytes(&self.seed) }
    }
}

/// Copies a byte string.
pub(crate) fn clone_bytes(v: &Vec<u8>) -> (r: Vec<u8>)
    ensures
        r@ == v@,
{
    let mut out: Vec<u8> = Vec::new();
    let n = v.len();
    let mut i: usize = 0;
    while i < n
        invariant
            n == v@.len(),
            i <= n,
            out@ =~= v@.take(i as int),
        decreases n - i,
    {
        out.push(v[i]);
        proof {
            assert(out@ =~= v@.take(i + 1));
        }
        i += 1;
    }
    proof {
        assert(v@.take(n as int) =~= v@);
    }
    out
}

/// A well-formed identity holds exactly a 32-byte seed.
pub proof fn lemma_wf_seed_len(id: &Identity)
    requires
        id.wf(),
    ensures
        id.seed_view().len() == 32,
{
}

/// What loading a stored seed file yields: the seed itself when it holds
/// exactly 32 bytes, nothing otherwise.
pub open spec fn loaded_identity(raw: Seq<u8>) -> Option<Seq<u8>> {
    if raw.len() == 32 {
        Some(raw)
    } else {
        None
    }
}

/// The base64 form of the public key of the identity with the given seed.
pub open spec fn public_key_b64_of(seed: Seq<u8>) -> Seq<char> {
    b64_of(ed25519_pub_of(seed))
}

/// Loads an identity from the stored key file contents, or generates a fresh
/// one when no file exists. `existing` is the file's contents, `None` when
/// there is no file. The second component reports whether the identity is
/// newly generated; a new seed must then be persisted by the caller.
pub fn load_or_generate(existing: Option<Vec<u8>>) -> (r: Result<(Identity, bool), IdentityError>)
    ensures
        match existing {
            Some(raw) => match r {
                Ok(p) => loaded_identity(raw@) == Some(p.0.seed_view()) && p.1 == false && p.0.wf(),
                Err(e) => loaded_identity(raw@) is None && e == IdentityError::KeyCorrupt,
            },
            None => match r {
                Ok(p) => p.1 == true && p.0.wf(),
                Err(_) => false,
            },
        },
{
    match existing {
        Some(raw) => {
            if raw.len() == 32 {
                Ok((Identity { seed: raw }, false))
            } else {
                Err(IdentityError::KeyCorrupt)
            }
        },
        None => {
            let seed = random_seed();
            Ok((Identity { seed }, true))
        },
    }
}

/// What a manual key import accepts: text that is valid base64 and decodes to
/// exactly 32 bytes.
pub open spec fn imported_seed(text: Seq<char>) -> Option<Seq<u8>> {
    match b64_decoded(text) {
        Some(v) => if v.len() == 32 {
            Some(v)
        } else {
            None
        },
        None => None,
    }
}

/// Validates a manually supplied base64 seed and returns the raw bytes to be
/// stored as the key file.
pub fn import_seed(text: &str) -> (r: Result<Vec<u8>, IdentityError>)
    ensures
        match r {
            Ok(v) => imported_seed(text@) == Some(v@),
            Err(e) => imported_seed(text@) is None && match b64_decoded(text@) {
                None => e == IdentityError::InvalidKeyFormat,
                Some(bs) => bs.len() != 32 && e == IdentityError::InvalidKeyLength,
            },
        },
{
    match b64_decode(text) {
        Some(v) => {
            if v.len() == 32 {
                Ok(v)
            } else {
                Err(IdentityError::InvalidKeyLength)
            }
        },
        None => Err(IdentityError::InvalidKeyFormat),
    }
}

/// The base64 signature produced for a base64 nonce, if the nonce decodes.
pub open spec fn signature_of(seed: Seq<u8>, nonce_text: Seq<char>) -> Option<Seq<char>> {
    match b64_decoded(nonce_text) {
        Some(nb) => Some(b64_of(ed25519_sig_of(seed, nb))),
        None => None,
    }
}

/// Decodes a base64 nonce, signs the raw bytes, and returns the signature in
/// base64.
pub fn sign_nonce(id: &Identity, nonce_b64: &str) -> (r: Result<String, IdentityError>)
    requires
        id.wf(),
    ensures
        match r {
            Ok(s) => signature_of(id.seed_view(), nonce_b64@) == Some(s@),
            Err(e) => signature_of(id.seed_view(), nonce_b64@) is None && e
                == IdentityError::DecodeError,
        },
{
    match b64_decode(nonce_b64) {
        Some(nb) => {
            let sig = ed25519_sign_bytes(&id.seed, &nb);
            Ok(b64_encode(&sig))
        },
        None => Err(IdentityError::DecodeError),
    }
}

/// The public half of the identity, base64-encoded.
pub fn pubkey_b64(id: &Identity) -> (r: String)
    requires
        id.wf(),
    ensures
        r@ == public_key_b64_of(id.seed_view()),
{
    let pk = ed25519_public_key(&id.seed);
    b64_encode(&pk)
}

/// Law: a seed that one call stored is loaded back unchanged by the next
/// call, so both calls expose the same public key, and the reload is not
/// reported as new (see the contract of `load_or_generate` for the latter).
pub proof fn lemma_load_or_generate_idempotent(seed: Seq<u8>)
    requires
        seed.len() == 32,
    ensures
        loaded_identity(seed) == Some(seed),
        public_key_b64_of(loaded_identity(seed)->0) == public_key_b64_of(seed),
{
}

/// Law: a seed accepted by manual import is stored as given, so loading it
/// afterwards yields an identity whose public key is exactly the public key
/// of that seed.
pub proof fn lemma_import_round_trip(text: Seq<char>, seed: Seq<u8>)
    requires
        imported_seed(text) == Some(seed),
    ensures
        loaded_identity(seed) == Some(seed),
        public_key_b64_of(loaded_identity(seed)->0) == public_key_b64_of(seed),
{
    assert(b64_decoded(text) == Some(seed));
}

/// Law: signing is deterministic — two identities holding the same seed
/// produce the same signature for the same nonce.
pub proof fn lemma_sign_deterministic(seed_a: Seq<u8>, seed_b: Seq<u8>, nonce: Seq<char>)
    requires
        seed_a == seed_b,
    ensures
        signature_of(seed_a, nonce) == signature_of(seed_b, nonce),
{
}

} // verus!
