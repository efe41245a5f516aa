//! SHA-256 digests and the registry's Ed25519 signing identity.

use crate::hexcode::{hex_decode, hex_decode_text, hex_encode, hex_lower, lemma_hex_roundtrip};
use crate::text::{is_white_space, lemma_trim_around, trim};
use ed25519_dalek::{Signer, Verifier};
use rand::RngCore;
use sha2::Digest;
use vstd::prelude::*;
use vstd::utf8::encode_utf8;

verus! {

broadcast use vstd::array::group_array_axioms;

/// The SHA-256 digest of a byte string.
pub uninterp spec fn sha256_of(data: Seq<u8>) -> Seq<u8>;

/// The Ed25519 public key (compressed point) of a 32-byte secret key.
pub uninterp spec fn ed25519_public_of(secret: Seq<u8>) -> Seq<u8>;

/// The Ed25519 signature of `message` under a 32-byte secret key.
pub uninterp spec fn ed25519_signature_of(secret: Seq<u8>, message: Seq<u8>) -> Seq<u8>;

/// Whether Ed25519 verification accepts `signature` on `message` under the
/// 32-byte encoded public key (false when the key does not decode to a point).
pub uninterp spec fn ed25519_accepts(public: Seq<u8>, message: Seq<u8>, signature: Seq<u8>) -> bool;

/// `sha2::Sha256::digest`: the contract claims the digest is the named
/// function of the input and is 32 bytes long.
#[verifier::external_body]
fn sha256(data: &[u8]) -> (out: Vec<u8>)
    ensures
        out@ == sha256_of(data@),
        out@.len() == 32,
{
    sha2::Sha256::digest(data).to_vec()
}

/// `SigningKey::from_bytes(..).verifying_key().to_bytes()` of `ed25519_dalek`:
/// the contract claims the key is the named function of the secret and is 32
/// bytes long.
#[verifier::external_body]
fn ed25519_public(secret: &[u8; 32]) -> (out: [u8; 32])
    ensures
        out@ == ed25519_public_of(secret@),
{
    ed25519_dalek::SigningKey::from_bytes(secret).verifying_key().to_bytes()
}

/// `SigningKey::from_bytes(..)` and `Signer::sign` of `ed25519_dalek`
/// (RFC 8032 signing, which is deterministic). The contract claims the
/// signature is the named function of secret and message, and that the
/// verifying key of the same secret accepts it.
#[verifier::external_body]
fn ed25519_sign(secret: &[u8; 32], message: &[u8]) -> (out: [u8; 64])
    ensures
        out@ == ed25519_signature_of(secret@, message@),
        ed25519_accepts(ed25519_public_of(secret@), message@, out@),
{
    ed25519_dalek::SigningKey::from_bytes(secret).sign(message).to_bytes()
}

/// `VerifyingKey::from_bytes` then `Verifier::verify` of `ed25519_dalek`;
/// a key that does not decode counts as a refusal. The contract claims the
/// answer is the named function of key, message and signature.
#[verifier::external_body]
fn ed25519_verify(public: &[u8; 32], message: &[u8], signature: &[u8; 64]) -> (out: bool)
    ensures
        out == ed25519_accepts(public@, message@, signature@),
{
    match ed25519_dalek::VerifyingKey::from_bytes(public) {
        Ok(key) => key.verify(message, &ed25519_dalek::Signature::from_bytes(signature)).is_ok(),
        Err(_) => false,
    }
}

/// Fills `n` bytes from the operating system's random source
/// (`rand::rngs::OsRng::try_fill_bytes`); `None` when that source fails.
/// Nothing is claimed of the bytes but their number, nor of when the source
/// fails.
#[verifier::external_body]
fn random_bytes(n: usize) -> (out: Option<Vec<u8>>)
    ensures
        out matches Some(v) ==> v@.len() == n,
{
    let mut value = vec![0_u8; n];
    match rand::rngs::OsRng.try_fill_bytes(&mut value) {
        Ok(()) => Some(value),
        Err(_) => None,
    }
}

fn array32(v: &[u8]) -> (out: [u8; 32])
    requires
        v@.len() == 32,
    ensures
        out@ == v@,
{
    let mut out = [0u8; 32];
    let mut i: usize = 0;
    while i < 32
        invariant
            i <= 32,
            v@.len() == 32,
            forall|j: int| 0 <= j < i ==> out@[j] == v@[j],
        decreases 32 - i,
    {
        out[i] = v[i];
        i = i + 1;
    }
    assert(out@ =~= v@);
    out
}

fn array64(v: &[u8]) -> (out: [u8; 64])
    requires
        v@.len() == 64,
    ensures
        out@ == v@,
{
    let mut out = [0u8; 64];
    let mut i: usize = 0;
    while i < 64
        invariant
            i <= 64,
            v@.len() == 64,
            forall|j: int| 0 <= j < i ==> out@[j] == v@[j],
        decreases 64 - i,
    {
        out[i] = v[i];
        i = i + 1;
    }
    assert(out@ =~= v@);
    out
}

} // verus!

verus! {

/// The registry's Ed25519 signing identity: its 32-byte secret key.
pub struct SignerKey {
    secret: [u8; 32],
}

/// Why a stored signing key could not be read.
#[derive(Debug, PartialEq, Eq, Structural, Clone, Copy)]
pub enum KeyFileError {
    /// The trimmed text is not hex.
    NotHex,
    /// The hex text does not hold exactly 32 bytes.
    WrongLength,
}

impl SignerKey {
    /// The 32 secret bytes.
    pub closed spec fn secret(&self) -> Seq<u8> {
        self.secret@
    }

    /// A signing identity with the given secret.
    pub fn from_secret(secret: [u8; 32]) -> (key: SignerKey)
        ensures
            key.secret() == secret@,
    {
        SignerKey { secret }
    }

    /// The text a signing key is stored in: its hex.
    pub fn to_file_text(&self) -> (text: String)
        ensures
            text@ == hex_lower(self.secret()),
    {
        hex_encode(&self.secret)
    }
}

/// A fresh signing identity from 32 random bytes; `None` when the random
/// source fails.
pub fn generate_signer_key() -> (out: Option<SignerKey>)
    ensures
        out matches Some(key) ==> key.secret().len() == 32,
{
    let bytes = random_bytes(32)?;
    Some(SignerKey { secret: array32(bytes.as_slice()) })
}

/// What a stored key text holds: the hex of 32 secret bytes, surrounding
/// white space ignored.
pub open spec fn key_file_secret(text: Seq<char>) -> Result<Seq<u8>, KeyFileError> {
    match hex_decode(trim(text)) {
        None => Err(KeyFileError::NotHex),
        Some(b) => if b.len() == 32 {
            Ok(b)
        } else {
            Err(KeyFileError::WrongLength)
        },
    }
}

/// Law: the text a signing key is stored in reads back as the same key, also
/// with white space around it, so the signing identity survives a restart.
pub proof fn lemma_key_file_roundtrip(secret: Seq<u8>, before: Seq<char>, after: Seq<char>)
    requires
        secret.len() == 32,
        forall|i: int| 0 <= i < before.len() ==> is_white_space(#[trigger] before[i]),
        forall|i: int| 0 <= i < after.len() ==> is_white_space(#[trigger] after[i]),
    ensures
        key_file_secret(before + hex_lower(secret) + after) == Ok::<Seq<u8>, KeyFileError>(secret),
{
    let h = hex_lower(secret);
    lemma_hex_roundtrip(secret);
    assert(0 <= secret[0] / 16 < 16);
    assert(0 <= secret[31] % 16 < 16);
    assert(h.last() == h[63]);
    lemma_trim_around(before, h, after);
}

/// Law: the text any signing key is stored in (`to_file_text`) reads back as
/// that key, a freshly generated key included.
pub proof fn lemma_signer_key_file_roundtrip(key: &SignerKey)
    ensures
        key_file_secret(hex_lower(key.secret())) == Ok::<Seq<u8>, KeyFileError>(key.secret()),
{
    let h = hex_lower(key.secret());
    assert(Seq::<char>::empty() + h + Seq::<char>::empty() =~= h);
    lemma_key_file_roundtrip(key.secret(), Seq::<char>::empty(), Seq::<char>::empty());
}

/// Reads a signing key from the text it is stored in.
pub fn decode_signing_key(text: &str) -> (out: Result<SignerKey, KeyFileError>)
    ensures
        match key_file_secret(text@) {
            Ok(b) => out matches Ok(k) && k.secret() == b,
            Err(e) => out == Err::<SignerKey, KeyFileError>(e),
        },
{
    let trimmed = crate::text::trimmed(text);
    match hex_decode_text(trimmed.as_str()) {
        None => Err(KeyFileError::NotHex),
        Some(b) => {
            if b.len() == 32 {
                Ok(SignerKey { secret: array32(b.as_slice()) })
            } else {
                Err(KeyFileError::WrongLength)
            }
        },
    }
}

/// The lower-case hex of the SHA-256 digest of `value`.
pub fn hash_bytes(value: &[u8]) -> (out: String)
    ensures
        out@ == hex_lower(sha256_of(value@)),
        out@.len() == 64,
{
    let digest = sha256(value);
    hex_encode(digest.as_slice())
}

/// `hash_bytes` of the UTF-8 bytes of a text.
pub fn hash(value: &str) -> (out: String)
    ensures
        out@ == hex_lower(sha256_of(encode_utf8(value@))),
        out@.len() == 64,
{
    hash_bytes(value.as_bytes())
}

/// The hex of the verifying key.
pub fn signer_public_key(key: &SignerKey) -> (out: String)
    ensures
        out@ == hex_lower(ed25519_public_of(key.secret())),
        out@.len() == 64,
{
    let public = ed25519_public(&key.secret);
    hex_encode(&public)
}

/// The SHA-256 hex of the verifying key.
pub fn signer_fingerprint(key: &SignerKey) -> (out: String)
    ensures
        out@ == hex_lower(sha256_of(ed25519_public_of(key.secret()))),
        out@.len() == 64,
{
    let public = ed25519_public(&key.secret);
    hash_bytes(&public)
}

/// The hex of the Ed25519 signature of `bytes`.
pub fn sign_bytes(key: &SignerKey, bytes: &[u8]) -> (out: String)
    ensures
        out@ == hex_lower(ed25519_signature_of(key.secret(), bytes@)),
        out@.len() == 128,
        hex_signature_accepts(hex_lower(ed25519_public_of(key.secret())), bytes@, out@),
{
    let public = ed25519_public(&key.secret);
    let signature = ed25519_sign(&key.secret, bytes);
    proof {
        crate::hexcode::lemma_hex_roundtrip(public@);
        crate::hexcode::lemma_hex_roundtrip(signature@);
    }
    hex_encode(&signature)
}

/// Law: the fingerprint published beside the public key is the SHA-256 hex of
/// the key bytes that the published hex text of the key decodes to.
pub proof fn lemma_fingerprint_matches_key(secret: Seq<u8>)
    ensures
        match hex_decode(hex_lower(ed25519_public_of(secret))) {
            Some(pk) => hex_lower(sha256_of(pk)) == hex_lower(sha256_of(ed25519_public_of(secret))),
            None => false,
        },
{
    lemma_hex_roundtrip(ed25519_public_of(secret));
}

/// The hex of `n` fresh random bytes; `None` when the random source fails.
pub fn random_hex(n: usize) -> (out: Option<String>)
    ensures
        out matches Some(s) ==> (exists|b: Seq<u8>| b.len() == n && s@ == hex_lower(b)) && s@.len()
            == 2 * n,
{
    let bytes = random_bytes(n)?;
    Some(hex_encode(bytes.as_slice()))
}

/// Whether a hex public key and a hex signature verify `message`: both texts
/// decode, to 32 and 64 bytes, and Ed25519 accepts.
pub open spec fn hex_signature_accepts(public_hex: Seq<char>, message: Seq<u8>, signature_hex: Seq<char>) -> bool {
    &&& hex_decode(public_hex) matches Some(pk)
    &&& hex_decode(signature_hex) matches Some(sig)
    &&& pk.len() == 32
    &&& sig.len() == 64
    &&& ed25519_accepts(pk, message, sig)
}

/// The signature check at the end of `package_is_valid`.
pub fn verify_hex_signature(public_hex: &str, message: &[u8], signature_hex: &str) -> (ok: bool)
    ensures
        ok == hex_signature_accepts(public_hex@, message@, signature_hex@),
{
    let key = match hex_decode_text(public_hex) {
        Some(v) => v,
        None => return false,
    };
    let signature = match hex_decode_text(signature_hex) {
        Some(v) => v,
        None => return false,
    };
    if key.len() != 32 || signature.len() != 64 {
        return false;
    }
    let key_bytes = array32(key.as_slice());
    let signature_bytes = array64(signature.as_slice());
    ed25519_verify(&key_bytes, message, &signature_bytes)
}

} // verus!

verus! {

/// `prefix` followed by the hex of `n` fresh random bytes: the form of every
/// identifier and key the registry hands out; `None` when the random source
/// fails.
pub fn prefixed_token(prefix: &str, n: usize) -> (out: Option<String>)
    ensures
        out matches Some(s) ==> (exists|b: Seq<u8>| b.len() == n && s@ == prefix@ + hex_lower(b))
            && s@.len() == prefix@.len() + 2 * n,
{
    let random = random_hex(n)?;
    let mut v = crate::text::chars_of(prefix);
    let r = crate::text::chars_of(random.as_str());
    crate::json::push_chars(&mut v, r.as_slice());
    Some(crate::text::string_from_chars(v.as_slice()))
}

} // verus!
