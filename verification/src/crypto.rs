//! The cryptographic and encoding primitives that the client takes from
//! outside crates, each behind a small wrapper whose contract names or
//! states what the call returns.
//!
//! Nothing in this module is proved: every `external_body` function here is
//! believed as its contract says.

use vstd::prelude::*;

use aes_gcm::aead::Aead;
use aes_gcm::KeyInit;
use base64::Engine;
use ed25519_dalek::Verifier as _;
use sha2::Digest;
use subtle::ConstantTimeEq;

verus! {

// ---------------------------------------------------------------------------
// Ed25519
// ---------------------------------------------------------------------------

#[verifier::external_type_specification]
#[verifier::external_body]
pub struct ExVerifyingKey(ed25519_dalek::VerifyingKey);

#[verifier::external_type_specification]
#[verifier::external_body]
pub struct ExSignature(ed25519_dalek::Signature);

/// Whether `bytes` is the compressed encoding of a curve point that
/// `VerifyingKey::from_bytes` accepts.
pub uninterp spec fn ed25519_key_decodes(bytes: Seq<u8>) -> bool;

/// Whether `signature` is a valid Ed25519 signature of `message` under the
/// public key encoded as `key`, as `VerifyingKey::verify` decides it.
pub uninterp spec fn ed25519_verifies(key: Seq<u8>, message: Seq<u8>, signature: Seq<u8>) -> bool;

/// An Ed25519 public key together with the 32 bytes it was decoded from.
pub struct Ed25519PublicKey {
    key: ed25519_dalek::VerifyingKey,
    bytes: Vec<u8>,
}

impl Ed25519PublicKey {
    /// The encoding the key was decoded from.
    pub closed spec fn encoding(&self) -> Seq<u8> {
        self.bytes@
    }
}

/// An Ed25519 signature together with the 64 bytes it was read from.
pub struct Ed25519Signature {
    signature: ed25519_dalek::Signature,
    bytes: Vec<u8>,
}

impl Ed25519Signature {
    /// The bytes the signature was read from.
    pub closed spec fn encoding(&self) -> Seq<u8> {
        self.bytes@
    }
}

/// `VerifyingKey::from_bytes`: decompresses a 32-byte public key. It fails
/// exactly when the bytes are not a point encoding; the failure's text is
/// `SignatureError`'s display text, which is not stated here.
#[verifier::external_body]
pub(crate) fn ed25519_public_key(bytes: &[u8]) -> (r: Result<Ed25519PublicKey, String>)
    requires
        bytes@.len() == 32,
    ensures
        r is Ok <==> ed25519_key_decodes(bytes@),
        r matches Ok(k) ==> k.encoding() == bytes@,
{
    let array: &[u8; 32] = bytes.try_into().unwrap();
    match ed25519_dalek::VerifyingKey::from_bytes(array) {
        Ok(key) => Ok(Ed25519PublicKey { key, bytes: bytes.to_vec() }),
        Err(e) => Err(e.to_string()),
    }
}

/// `Signature::try_from(&[u8])`: reads a signature from a slice. It fails
/// exactly when the slice is not 64 bytes long; the failure's text is not
/// stated here.
#[verifier::external_body]
pub(crate) fn ed25519_signature(bytes: &[u8]) -> (r: Result<Ed25519Signature, String>)
    ensures
        r is Ok <==> bytes@.len() == 64,
        r matches Ok(s) ==> s.encoding() == bytes@,
{
    match ed25519_dalek::Signature::try_from(bytes) {
        Ok(signature) => Ok(Ed25519Signature { signature, bytes: bytes.to_vec() }),
        Err(e) => Err(e.to_string()),
    }
}

/// `VerifyingKey::verify` (the `Verifier` trait): checks the signature of
/// `message`. It succeeds exactly when `ed25519_verifies` holds of the
/// key's and the signature's encodings; the failure's text is not stated.
#[verifier::external_body]
pub(crate) fn ed25519_verify(key: &Ed25519PublicKey, message: &[u8], signature: &Ed25519Signature) -> (r:
    Result<(), String>)
    ensures
        r is Ok <==> ed25519_verifies(key.encoding(), message@, signature.encoding()),
{
    key.key.verify(message, &signature.signature).map_err(|e| e.to_string())
}

// ---------------------------------------------------------------------------
// SHA-256 and constant-time comparison
// ---------------------------------------------------------------------------

/// The SHA-256 digest of `data`.
pub uninterp spec fn sha256_digest(data: Seq<u8>) -> Seq<u8>;

/// `Sha256::digest`: the 32-byte SHA-256 digest of `data`.
#[verifier::external_body]
pub(crate) fn sha256(data: &[u8]) -> (r: Vec<u8>)
    ensures
        r@ == sha256_digest(data@),
        r@.len() == 32,
{
    sha2::Sha256::digest(data).to_vec()
}

/// `<[u8] as ConstantTimeEq>::ct_eq`: whether the two slices are equal
/// (slices of different lengths are unequal).
#[verifier::external_body]
pub(crate) fn constant_time_eq(a: &[u8], b: &[u8]) -> (r: bool)
    ensures
        r == (a@ == b@),
{
    bool::from(a.ct_eq(b))
}

// ---------------------------------------------------------------------------
// Base64 and hex
// ---------------------------------------------------------------------------

/// What `general_purpose::STANDARD.decode` gives for `input`: the bytes, or
/// `None` when the input is not canonical padded standard base64.
pub uninterp spec fn base64_standard_decoded(input: Seq<u8>) -> Option<Seq<u8>>;

/// What `general_purpose::URL_SAFE.decode` gives for `input`.
pub uninterp spec fn base64_url_safe_decoded(input: Seq<u8>) -> Option<Seq<u8>>;

/// What `general_purpose::STANDARD.encode` gives for `input`.
pub uninterp spec fn base64_standard_encoded(input: Seq<u8>) -> Seq<char>;

/// `general_purpose::STANDARD.decode`. On failure, the text is
/// `DecodeError`'s display text, which is not stated here.
#[verifier::external_body]
pub(crate) fn base64_standard_decode(input: &[u8]) -> (r: Result<Vec<u8>, String>)
    ensures
        r is Ok <==> base64_standard_decoded(input@) is Some,
        r matches Ok(v) ==> base64_standard_decoded(input@) == Some(v@),
{
    base64::engine::general_purpose::STANDARD.decode(input).map_err(|e| e.to_string())
}

/// `general_purpose::URL_SAFE.decode`. On failure, the text is not stated.
#[verifier::external_body]
pub(crate) fn base64_url_safe_decode(input: &[u8]) -> (r: Result<Vec<u8>, String>)
    ensures
        r is Ok <==> base64_url_safe_decoded(input@) is Some,
        r matches Ok(v) ==> base64_url_safe_decoded(input@) == Some(v@),
{
    base64::engine::general_purpose::URL_SAFE.decode(input).map_err(|e| e.to_string())
}

/// `general_purpose::STANDARD.encode`.
#[verifier::external_body]
pub(crate) fn base64_standard_encode(input: &[u8]) -> (r: String)
    ensures
        r@ == base64_standard_encoded(input@),
{
    base64::engine::general_purpose::STANDARD.encode(input)
}

/// The value of one hex digit, of either case.
pub open spec fn hex_digit_value(b: u8) -> Option<u8> {
    if 0x30 <= b && b <= 0x39 {
        Some((b - 0x30) as u8)
    } else if 0x41 <= b && b <= 0x46 {
        Some((b - 0x41 + 10) as u8)
    } else if 0x61 <= b && b <= 0x66 {
        Some((b - 0x61 + 10) as u8)
    } else {
        None
    }
}

/// What `hex::decode` gives: for an even number of hex digits, one byte
/// per pair (high digit first); `None` otherwise.
pub open spec fn hex_decoded(s: Seq<u8>) -> Option<Seq<u8>> {
    if s.len() % 2 == 0 && (forall|i: int| 0 <= i < s.len() ==> (#[trigger] hex_digit_value(s[i])) is Some) {
        Some(Seq::new((s.len() / 2) as nat, |i: int| (hex_digit_value(s[2 * i]).unwrap() * 16 + hex_digit_value(s[2 * i + 1]).unwrap()) as u8))
    } else {
        None
    }
}

/// `hex::decode`.
#[verifier::external_body]
pub(crate) fn hex_decode(input: &[u8]) -> (r: Option<Vec<u8>>)
    ensures
        match hex_decoded(input@) {
            Some(v) => r matches Some(w) && w@ == v,
            None => r is None,
        },
{
    hex::decode(input).ok()
}

// ---------------------------------------------------------------------------
// AES-256-GCM
// ---------------------------------------------------------------------------

/// What `Aes256Gcm::decrypt` gives for the key `key`, the 12-byte nonce
/// `nonce` and the ciphertext followed by its 16-byte tag: the plaintext, or
/// `None` when the tag does not authenticate the data.
pub uninterp spec fn aes256_gcm_opened(key: Seq<u8>, nonce: Seq<u8>, data: Seq<u8>) -> Option<Seq<u8>>;

/// `Aes256Gcm::decrypt` (the `Aead` trait) under a cipher made with
/// `KeyInit::new` from the 32-byte `key`, with a 12-byte nonce.
#[verifier::external_body]
pub(crate) fn aes256_gcm_open(key: &[u8], nonce: &[u8], data: &[u8]) -> (r: Option<Vec<u8>>)
    requires
        key@.len() == 32,
        nonce@.len() == 12,
    ensures
        match aes256_gcm_opened(key@, nonce@, data@) {
            Some(v) => r matches Some(w) && w@ == v,
            None => r is None,
        },
{
    let cipher = aes_gcm::Aes256Gcm::new(aes_gcm::Key::<aes_gcm::Aes256Gcm>::from_slice(key));
    cipher.decrypt(aes_gcm::Nonce::from_slice(nonce), data).ok()
}

// ---------------------------------------------------------------------------
// Unicode case mapping
// ---------------------------------------------------------------------------

/// What `str::to_lowercase` gives for `s`.
pub uninterp spec fn lowercase(s: Seq<char>) -> Seq<char>;

/// What `str::to_uppercase` gives for `s`.
pub uninterp spec fn uppercase(s: Seq<char>) -> Seq<char>;

/// `str::to_lowercase`.
#[verifier::external_body]
pub(crate) fn to_lowercase(s: &str) -> (r: String)
    ensures
        r@ == lowercase(s@),
{
    s.to_lowercase()
}

/// `str::to_uppercase`.
#[verifier::external_body]
pub(crate) fn to_uppercase(s: &str) -> (r: String)
    ensures
        r@ == uppercase(s@),
{
    s.to_uppercase()
}

// ---------------------------------------------------------------------------
// URL-encoded forms
// ---------------------------------------------------------------------------

/// The (name, value) pairs `url::form_urlencoded::parse` reads from
/// `input`, percent-decoded, in order.
pub uninterp spec fn urlencoded_pairs(input: Seq<u8>) -> Seq<(Seq<char>, Seq<char>)>;

/// `url::form_urlencoded::parse`, each pair taken as owned strings.
#[verifier::external_body]
pub(crate) fn parse_urlencoded(input: &[u8]) -> (r: Vec<(String, String)>)
    ensures
        crate::headers::pair_views(r@) == urlencoded_pairs(input@),
{
    url::form_urlencoded::parse(input).map(|(k, v)| (k.into_owned(), v.into_owned())).collect()
}

} // verus!
