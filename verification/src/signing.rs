//! Offline verification: signed license keys, signed license and machine
//! file certificates, and the signatures Keygen puts on its responses.

use vstd::prelude::*;
use vstd::utf8::encode_utf8;

use crate::certificate::Certificate;
use crate::crypto::{
    base64_standard_decode, base64_standard_decoded, base64_standard_encode,
    base64_standard_encoded, base64_url_safe_decode, base64_url_safe_decoded, constant_time_eq,
    ed25519_key_decodes, ed25519_public_key, ed25519_signature, ed25519_verifies, ed25519_verify,
    hex_decode, hex_decoded, lowercase, sha256, sha256_digest, to_lowercase,
};
use crate::errors::Error;
use crate::headers::{header_lookup, HeaderList};
use crate::license::{License, SchemeCode};
use crate::text::{
    ascii_lower, chars_eq_str, chars_of, has_prefix, slice_range, split_chars, split_spec, starts_with_at,
    string_of, to_string, trim, trim_quotes, trim_quotes_spec, trim_spec, trim_start_matches,
    trim_start_matches_spec,
};

verus! {

/// Verifies signatures made with the account's Ed25519 key, given as 64
/// hex digits.
pub struct Verifier {
    public_key: String,
}

impl View for Verifier {
    type V = Seq<char>;

    /// The hex text of the public key.
    closed spec fn view(&self) -> Seq<char> {
        self.public_key@
    }
}

/// `r` is the outcome `s` describes: the same bytes, or the same error.
pub open spec fn bytes_outcome(r: Result<Vec<u8>, Error>, s: Result<Seq<u8>, Error>) -> bool {
    match s {
        Ok(b) => r matches Ok(v) && v@ == b,
        Err(e) => r == Err::<Vec<u8>, Error>(e),
    }
}

/// The public key bytes that the hex text `text` gives: missing when the
/// text is empty, invalid unless it is the hex encoding of 32 bytes.
pub open spec fn public_key_decoded(text: Seq<char>) -> Result<Seq<u8>, Error> {
    if text.len() == 0 {
        Err(Error::PublicKeyMissing)
    } else {
        match hex_decoded(encode_utf8(text)) {
            Some(b) => if b.len() == 32 {
                Ok(b)
            } else {
                Err(Error::PublicKeyInvalid)
            },
            None => Err(Error::PublicKeyInvalid),
        }
    }
}

/// What verifying the signed license key `key` under the public key `pk`
/// gives. A signed key reads `key/<dataset>.<signature>`, both parts in
/// padded URL-safe base64; the signature must be a valid Ed25519 signature
/// of the text `key/<dataset>`, and the result is the decoded dataset.
pub open spec fn signed_key_outcome(pk: Seq<u8>, key: Seq<char>) -> Result<Seq<u8>, Error> {
    let parts = split_spec(key, '.');
    if parts.len() != 2 {
        Err(Error::LicenseKeyNotGenuine)
    } else {
        let fields = split_spec(parts[0], '/');
        if fields.len() != 2 || fields[0] != "key"@ {
            Err(Error::LicenseKeyNotGenuine)
        } else {
            match (
                base64_url_safe_decoded(encode_utf8(parts[1])),
                base64_url_safe_decoded(encode_utf8(fields[1])),
            ) {
                (Some(sig), Some(dataset)) => {
                    if !ed25519_key_decodes(pk) {
                        Err(Error::PublicKeyInvalid)
                    } else if sig.len() == 64 && ed25519_verifies(
                        pk,
                        encode_utf8("key/"@ + fields[1]),
                        sig,
                    ) {
                        Ok(dataset)
                    } else {
                        Err(Error::LicenseKeyNotGenuine)
                    }
                },
                _ => Err(Error::LicenseKeyNotGenuine),
            }
        }
    }
}

/// What verifying the signed key `key` gives under the public key written
/// as `pk_text`: errors of the public key come first.
pub open spec fn signed_key_check(pk_text: Seq<char>, key: Seq<char>) -> Result<Seq<u8>, Error> {
    match public_key_decoded(pk_text) {
        Err(e) => Err(e),
        Ok(pk) => signed_key_outcome(pk, key),
    }
}

/// What verifying a license with key `key` and scheme `scheme` gives: the
/// key must be present, the scheme known, and only Ed25519 signed keys are
/// supported.
pub open spec fn license_check(pk_text: Seq<char>, scheme: Option<SchemeCode>, key: Seq<char>) -> Result<
    Seq<u8>,
    Error,
> {
    if key.len() == 0 {
        Err(Error::LicenseKeyMissing)
    } else {
        match scheme {
            None => Err(Error::LicenseSchemeMissing),
            Some(SchemeCode::Ed25519Sign) => signed_key_check(pk_text, key),
            Some(_) => Err(Error::LicenseSchemeUnsupported),
        }
    }
}

/// `r` is what verifying a license (scheme `scheme`, key `key`) under the
/// public key written as `pk_text` gives.
pub open spec fn license_outcome(
    pk_text: Seq<char>,
    scheme: Option<SchemeCode>,
    key: Seq<char>,
    r: Result<Vec<u8>, Error>,
) -> bool {
    bytes_outcome(r, license_check(pk_text, scheme, key))
}

/// The verdict on a signed certificate.
pub enum CertificateVerdict {
    /// The signature is valid.
    Genuine,
    /// The public key is missing or invalid.
    KeyError(Error),
    /// The signature cannot be read or does not verify.
    NotGenuine,
    /// The algorithm is not an Ed25519 one.
    NotSupported,
}

/// Whether `alg` names an Ed25519-signed certificate.
pub open spec fn ed25519_certificate(alg: Seq<char>) -> bool {
    alg == "aes-256-gcm+ed25519"@ || alg == "base64+ed25519"@
}

/// The verdict on the certificate `cert` of a file of kind `prefix`
/// (`license` or `machine`): the signature, in padded standard base64,
/// must be a valid Ed25519 signature of `<prefix>/<enc>`.
pub open spec fn certificate_verdict(pk_text: Seq<char>, cert: Certificate, prefix: Seq<char>) -> CertificateVerdict {
    if ed25519_certificate(cert.alg@) {
        match public_key_decoded(pk_text) {
            Err(e) => CertificateVerdict::KeyError(e),
            Ok(pk) => match base64_standard_decoded(encode_utf8(cert.sig@)) {
                None => CertificateVerdict::NotGenuine,
                Some(sig) => if ed25519_key_decodes(pk) && sig.len() == 64 && ed25519_verifies(
                    pk,
                    encode_utf8(prefix + "/"@ + cert.enc@),
                    sig,
                ) {
                    CertificateVerdict::Genuine
                } else {
                    CertificateVerdict::NotGenuine
                },
            },
        }
    } else {
        CertificateVerdict::NotSupported
    }
}

/// `r` is the outcome of verifying the certificate of a license file
/// under the public key written as `pk_text`: signature failures are
/// reported as license file errors.
pub open spec fn license_file_verified_as(pk_text: Seq<char>, cert: Certificate, r: Result<(), Error>) -> bool {
    match certificate_verdict(pk_text, cert, "license"@) {
        CertificateVerdict::Genuine => r is Ok,
        CertificateVerdict::KeyError(e) => r == Err::<(), Error>(e),
        CertificateVerdict::NotGenuine => r matches Err(Error::LicenseFileNotGenuine(_)),
        CertificateVerdict::NotSupported => r matches Err(Error::LicenseFileNotSupported(a))
            && a@ == cert.alg@,
    }
}

/// `r` is the outcome of verifying the certificate of a machine file
/// under the public key written as `pk_text`: signature failures are
/// reported as machine file errors.
pub open spec fn machine_file_verified_as(pk_text: Seq<char>, cert: Certificate, r: Result<(), Error>) -> bool {
    match certificate_verdict(pk_text, cert, "machine"@) {
        CertificateVerdict::Genuine => r is Ok,
        CertificateVerdict::KeyError(e) => r == Err::<(), Error>(e),
        CertificateVerdict::NotGenuine => r matches Err(Error::MachineFileNotGenuine(_)),
        CertificateVerdict::NotSupported => r matches Err(Error::MachineFileNotSupported(a))
            && a@ == cert.alg@,
    }
}

/// The components of a `Keygen-Signature` header.
pub struct SignatureComponents {
    pub keyid: String,
    pub algorithm: String,
    pub signature: Vec<u8>,
    pub headers: String,
}

/// The value of a `<prefix>...` part of a signature header: the part
/// without every leading copy of the prefix, then without surrounding
/// quotes.
pub open spec fn header_value(part: Seq<char>, prefix: Seq<char>) -> Option<Seq<char>> {
    if has_prefix(part, prefix) {
        Some(trim_quotes_spec(trim_start_matches_spec(part, prefix)))
    } else {
        None
    }
}

/// The value of the last of the (trimmed) `parts` that begins with
/// `prefix`; empty when there is none.
pub open spec fn last_field(parts: Seq<Seq<char>>, prefix: Seq<char>) -> Seq<char>
    decreases parts.len(),
{
    if parts.len() == 0 {
        Seq::empty()
    } else {
        match header_value(trim_spec(parts.last()), prefix) {
            Some(v) => v,
            None => last_field(parts.drop_last(), prefix),
        }
    }
}

/// A field of the signature header `header`.
pub open spec fn signature_field(header: Seq<char>, prefix: Seq<char>) -> Seq<char> {
    last_field(split_spec(header, ','), prefix)
}

/// The header `name` of a response: its text, or the reason it is refused
/// (missing, or not text).
pub open spec fn required_header(entries: Seq<(String, Option<String>)>, name: Seq<char>) -> Result<
    Seq<char>,
    Seq<char>,
> {
    match header_lookup(entries, name) {
        None => Err("Missing "@ + name + " header"@),
        Some(None) => Err("Invalid "@ + name + " header"@),
        Some(Some(v)) => Ok(v),
    }
}

/// Why the digest header does not vouch for `body`, if it does not: it
/// must name the SHA-256 digest of the body in padded standard base64
/// after `sha-256=`.
pub open spec fn digest_refusal(digest: Seq<char>, body: Seq<u8>) -> Option<Seq<char>> {
    if has_prefix(digest, "sha-256="@) {
        if encode_utf8(digest.skip(8)) == encode_utf8(base64_standard_encoded(sha256_digest(body))) {
            None
        } else {
            Some("Body digest does not match digest header"@)
        }
    } else {
        Some("Unsupported digest algorithm"@)
    }
}

/// The text Keygen signs for a response: request target, host, date and
/// digest, one per line.
pub open spec fn signing_text(
    method: Seq<char>,
    path: Seq<char>,
    host: Seq<char>,
    date: Seq<char>,
    digest: Seq<char>,
) -> Seq<char> {
    "(request-target): "@ + lowercase(method) + " "@ + path + "\nhost: "@ + host + "\ndate: "@
        + date + "\ndigest: "@ + digest
}

/// What checking an Ed25519 signature `sig` of `data` under the public key
/// written as `pk_text` gives: `Ok` when it verifies, else `Err(Ok(reason))`
/// or, for a missing or invalid public key, `Err(Err(error))`.
pub open spec fn ed25519_signature_check(pk_text: Seq<char>, data: Seq<char>, sig: Seq<u8>) -> Result<
    (),
    Result<Seq<char>, Error>,
> {
    match public_key_decoded(pk_text) {
        Err(e) => Err(Err(e)),
        Ok(pk) => if !ed25519_key_decodes(pk) {
            Err(Ok("Invalid public key"@))
        } else if sig.len() != 64 {
            Err(Ok("Invalid signature format"@))
        } else if !ed25519_verifies(pk, encode_utf8(data), sig) {
            Err(Ok("Signature verification failed"@))
        } else {
            Ok(())
        },
    }
}

/// The components of the signature header `header`, or why it is refused:
/// all four of `keyid`, `algorithm`, `signature` and `headers` must be
/// present and non-empty, and the signature must be padded standard
/// base64.
pub open spec fn signature_header_parsed(header: Seq<char>) -> Result<
    (Seq<char>, Seq<char>, Seq<u8>, Seq<char>),
    Seq<char>,
> {
    let keyid = signature_field(header, "keyid="@);
    let algorithm = signature_field(header, "algorithm="@);
    let signature = signature_field(header, "signature="@);
    let headers = signature_field(header, "headers="@);
    if keyid.len() == 0 || algorithm.len() == 0 || signature.len() == 0 || headers.len() == 0 {
        Err("Missing signature components"@)
    } else {
        match base64_standard_decoded(encode_utf8(signature)) {
            None => Err("Invalid signature encoding"@),
            Some(sig) => Ok((keyid, algorithm, sig, headers)),
        }
    }
}

/// What checking the Keygen signature of a response gives: `Ok` when it is
/// valid, else `Err(Ok(reason))`, or `Err(Err(error))` when the public key
/// written as `pk_text` is missing or invalid. The `keygen-signature`,
/// `date` and `digest` headers are read in that order; the digest is
/// checked against the body before the signature header is read; the
/// algorithm must be `ed25519`; the signature must verify over the signing
/// text of the request.
pub open spec fn response_signature_check(
    pk_text: Seq<char>,
    entries: Seq<(String, Option<String>)>,
    body: Seq<u8>,
    method: Seq<char>,
    path: Seq<char>,
    host: Seq<char>,
) -> Result<(), Result<Seq<char>, Error>> {
    match required_header(entries, "keygen-signature"@) {
        Err(m) => Err(Ok(m)),
        Ok(sig_header) => match required_header(entries, "date"@) {
            Err(m) => Err(Ok(m)),
            Ok(date) => match required_header(entries, "digest"@) {
                Err(m) => Err(Ok(m)),
                Ok(digest) => match digest_refusal(digest, body) {
                    Some(m) => Err(Ok(m)),
                    None => match signature_header_parsed(sig_header) {
                        Err(m) => Err(Ok(m)),
                        Ok((_keyid, algorithm, sig, _headers)) => if algorithm != "ed25519"@ {
                            Err(Ok("Unsupported algorithm: "@ + algorithm))
                        } else {
                            ed25519_signature_check(
                                pk_text,
                                signing_text(method, path, host, date, digest),
                                sig,
                            )
                        },
                    },
                },
            },
        },
    }
}

/// `r` is the result `s` describes, a refusal reason becoming
/// `KeygenSignatureInvalid`.
pub open spec fn signature_outcome(r: Result<(), Error>, s: Result<(), Result<Seq<char>, Error>>) -> bool {
    match s {
        Ok(()) => r is Ok,
        Err(Ok(m)) => (r matches Err(Error::KeygenSignatureInvalid { reason }) && reason@ == m),
        Err(Err(e)) => r == Err::<(), Error>(e),
    }
}

proof fn lemma_prefix_first_char(part: Seq<char>, p: Seq<char>)
    requires
        has_prefix(part, p),
        p.len() > 0,
    ensures
        part[0] == p[0],
{
    assert(part.take(p.len() as int)[0] == part[0]);
}

/// At most one of the four component prefixes begins a part.
proof fn lemma_component_prefixes_exclusive(part: Seq<char>)
    ensures
        has_prefix(part, "keyid="@) ==> !has_prefix(part, "algorithm="@) && !has_prefix(
            part,
            "signature="@,
        ) && !has_prefix(part, "headers="@),
        has_prefix(part, "algorithm="@) ==> !has_prefix(part, "signature="@) && !has_prefix(
            part,
            "headers="@,
        ),
        has_prefix(part, "signature="@) ==> !has_prefix(part, "headers="@),
{
    reveal_strlit("keyid=");
    reveal_strlit("algorithm=");
    reveal_strlit("signature=");
    reveal_strlit("headers=");
    if has_prefix(part, "keyid="@) {
        lemma_prefix_first_char(part, "keyid="@);
    }
    if has_prefix(part, "algorithm="@) {
        lemma_prefix_first_char(part, "algorithm="@);
    }
    if has_prefix(part, "signature="@) {
        lemma_prefix_first_char(part, "signature="@);
    }
    if has_prefix(part, "headers="@) {
        lemma_prefix_first_char(part, "headers="@);
    }
}

/// Builds `a + b + c`.
fn concat3(a: &str, b: &str, c: &str) -> (r: String)
    ensures
        r@ == a@ + b@ + c@,
{
    let mut s = to_string(a);
    s.append(b);
    s.append(c);
    s
}

/// A refusal of the response signature for `reason`.
fn signature_invalid(reason: String) -> (r: Error)
    ensures
        r matches Error::KeygenSignatureInvalid { reason: m } && m == reason,
{
    Error::KeygenSignatureInvalid { reason }
}

/// The value of `part` after `prefix`, when `part` begins with it.
fn header_value_of(part: &[char], prefix: &[char]) -> (r: Option<Vec<char>>)
    ensures
        match header_value(part@, prefix@) {
            Some(v) => r matches Some(w) && w@ == v,
            None => r is None,
        },
{
    assert(part@.skip(0) =~= part@);
    if starts_with_at(part, 0, prefix) {
        let rest = trim_start_matches(part, prefix);
        Some(trim_quotes(rest.as_slice()))
    } else {
        None
    }
}

/// The value of a `<prefix>...` part of a signature header.
pub fn extract_header_value(part: &str, prefix: &str) -> (r: Option<String>)
    ensures
        match header_value(part@, prefix@) {
            Some(v) => r matches Some(w) && w@ == v,
            None => r is None,
        },
{
    let p = chars_of(part);
    let q = chars_of(prefix);
    match header_value_of(p.as_slice(), q.as_slice()) {
        Some(v) => Some(string_of(v.as_slice())),
        None => None,
    }
}

impl Verifier {
    /// A verifier for the public key written as `public_key`.
    pub fn new(public_key: String) -> (r: Self)
        ensures
            r@ == public_key@,
    {
        Self { public_key }
    }

    fn public_key_bytes(&self) -> (r: Result<Vec<u8>, Error>)
        ensures
            bytes_outcome(r, public_key_decoded(self@)),
            r matches Ok(v) ==> v@.len() == 32,
    {
        if self.public_key.as_str().is_empty() {
            return Err(Error::PublicKeyMissing);
        }
        match hex_decode(self.public_key.as_str().as_bytes()) {
            Some(key) => {
                if key.len() != 32 {
                    Err(Error::PublicKeyInvalid)
                } else {
                    Ok(key)
                }
            },
            None => Err(Error::PublicKeyInvalid),
        }
    }

    /// Verifies a signed license key and returns its dataset.
    pub fn verify_key(&self, key: &str) -> (r: Result<Vec<u8>, Error>)
        ensures
            bytes_outcome(r, signed_key_check(self@, key@)),
    {
        let public_key = match self.public_key_bytes() {
            Ok(k) => k,
            Err(e) => return Err(e),
        };
        let key_chars = chars_of(key);
        let parts = split_chars(key_chars.as_slice(), '.');
        if parts.len() != 2 {
            return Err(Error::LicenseKeyNotGenuine);
        }
        let fields = split_chars(parts[0].as_slice(), '/');
        assert(parts@[0]@ == split_spec(key@, '.')[0]);
        if fields.len() != 2 || !chars_eq_str(fields[0].as_slice(), "key") {
            return Err(Error::LicenseKeyNotGenuine);
        }
        assert(fields@[0]@ == split_spec(parts@[0]@, '/')[0]);
        assert(fields@[1]@ == split_spec(parts@[0]@, '/')[1]);
        assert(parts@[1]@ == split_spec(key@, '.')[1]);
        let enc_sig = string_of(parts[1].as_slice());
        let enc_dataset = string_of(fields[1].as_slice());
        let mut msg = to_string("key/");
        msg.append(enc_dataset.as_str());
        let sig = match base64_url_safe_decode(enc_sig.as_str().as_bytes()) {
            Ok(s) => s,
            Err(_) => return Err(Error::LicenseKeyNotGenuine),
        };
        let dataset = match base64_url_safe_decode(enc_dataset.as_str().as_bytes()) {
            Ok(d) => d,
            Err(_) => return Err(Error::LicenseKeyNotGenuine),
        };
        let verifying_key = match ed25519_public_key(public_key.as_slice()) {
            Ok(k) => k,
            Err(_) => return Err(Error::PublicKeyInvalid),
        };
        let signature = match ed25519_signature(sig.as_slice()) {
            Ok(s) => s,
            Err(_) => return Err(Error::LicenseKeyNotGenuine),
        };
        match ed25519_verify(&verifying_key, msg.as_str().as_bytes(), &signature) {
            Ok(()) => Ok(dataset),
            Err(_) => Err(Error::LicenseKeyNotGenuine),
        }
    }

    /// Verifies a license's signed key: the key must be present, the scheme
    /// known, and only Ed25519 signed keys are supported.
    pub fn verify_license(&self, license: &License) -> (r: Result<Vec<u8>, Error>)
        ensures
            license_outcome(self@, license.scheme, license.key@, r),
    {
        if license.key.as_str().is_empty() {
            return Err(Error::LicenseKeyMissing);
        }
        match license.scheme {
            None => Err(Error::LicenseSchemeMissing),
            Some(SchemeCode::Ed25519Sign) => self.verify_key(license.key.as_str()),
            Some(_) => Err(Error::LicenseSchemeUnsupported),
        }
    }

    /// Verifies the signature of a certificate of a file of kind `prefix`.
    pub fn verify_certificate(&self, cert: &Certificate, prefix: &str) -> (r: Result<(), Error>)
        ensures
            match certificate_verdict(self@, *cert, prefix@) {
                CertificateVerdict::Genuine => r is Ok,
                CertificateVerdict::KeyError(e) => r == Err::<(), Error>(e),
                CertificateVerdict::NotGenuine => r matches Err(
                    Error::CertificateFileNotGenuine(_),
                ),
                CertificateVerdict::NotSupported => r matches Err(
                    Error::CertificateFileNotSupported(a),
                ) && a@ == cert.alg@,
            },
    {
        let alg = chars_of(cert.alg.as_str());
        if !(chars_eq_str(alg.as_slice(), "aes-256-gcm+ed25519") || chars_eq_str(
            alg.as_slice(),
            "base64+ed25519",
        )) {
            return Err(Error::CertificateFileNotSupported(cert.alg.clone()));
        }
        let public_key = match self.public_key_bytes() {
            Ok(k) => k,
            Err(e) => return Err(e),
        };
        let mut msg = to_string(prefix);
        msg.append("/");
        msg.append(cert.enc.as_str());
        let sig = match base64_standard_decode(cert.sig.as_str().as_bytes()) {
            Ok(s) => s,
            Err(m) => return Err(Error::CertificateFileNotGenuine(m)),
        };
        let verifying_key = match ed25519_public_key(public_key.as_slice()) {
            Ok(k) => k,
            Err(m) => return Err(Error::CertificateFileNotGenuine(m)),
        };
        let signature = match ed25519_signature(sig.as_slice()) {
            Ok(s) => s,
            Err(m) => return Err(Error::CertificateFileNotGenuine(m)),
        };
        match ed25519_verify(&verifying_key, msg.as_str().as_bytes(), &signature) {
            Ok(()) => Ok(()),
            Err(m) => Err(Error::CertificateFileNotGenuine(m)),
        }
    }

    /// Verifies the certificate of a license file; signature failures are
    /// reported as license file errors.
    pub fn verify_license_file(&self, cert: &Certificate) -> (r: Result<(), Error>)
        ensures
            license_file_verified_as(self@, *cert, r),
    {
        match self.verify_certificate(cert, "license") {
            Ok(()) => Ok(()),
            Err(Error::CertificateFileNotGenuine(m)) => Err(Error::LicenseFileNotGenuine(m)),
            Err(Error::CertificateFileNotSupported(m)) => Err(Error::LicenseFileNotSupported(m)),
            Err(e) => Err(e),
        }
    }

    /// Verifies the certificate of a machine file; signature failures are
    /// reported as machine file errors.
    pub fn verify_machine_file(&self, cert: &Certificate) -> (r: Result<(), Error>)
        ensures
            machine_file_verified_as(self@, *cert, r),
    {
        match self.verify_certificate(cert, "machine") {
            Ok(()) => Ok(()),
            Err(Error::CertificateFileNotGenuine(m)) => Err(Error::MachineFileNotGenuine(m)),
            Err(Error::CertificateFileNotSupported(m)) => Err(Error::MachineFileNotSupported(m)),
            Err(e) => Err(e),
        }
    }

    fn get_required_header(headers: &HeaderList, name: &str) -> (r: Result<String, Error>)
        requires
            ascii_lower(name@) == name@,
        ensures
            match required_header(headers.entries@, name@) {
                Ok(v) => r matches Ok(s) && s@ == v,
                Err(m) => (r matches Err(Error::KeygenSignatureInvalid { reason }) && reason@ == m),
            },
    {
        match headers.get(name) {
            None => Err(signature_invalid(concat3("Missing ", name, " header"))),
            Some(None) => Err(signature_invalid(concat3("Invalid ", name, " header"))),
            Some(Some(v)) => Ok(v),
        }
    }

    fn verify_digest(digest_header: &str, body: &[u8]) -> (r: Result<(), Error>)
        ensures
            match digest_refusal(digest_header@, body@) {
                None => r is Ok,
                Some(m) => (r matches Err(Error::KeygenSignatureInvalid { reason }) && reason@ == m),
            },
    {
        let digest = chars_of(digest_header);
        let prefix = chars_of("sha-256=");
        proof {
            reveal_strlit("sha-256=");
        }
        assert(digest@.skip(0) =~= digest@);
        if starts_with_at(digest.as_slice(), 0, prefix.as_slice()) {
            let provided = string_of(slice_range(digest.as_slice(), 8, digest.len()).as_slice());
            assert(provided@ =~= digest_header@.skip(8));
            let digest_bytes = sha256(body);
            let calculated = base64_standard_encode(digest_bytes.as_slice());
            if !constant_time_eq(provided.as_str().as_bytes(), calculated.as_str().as_bytes()) {
                return Err(
                    signature_invalid(to_string("Body digest does not match digest header")),
                );
            }
            Ok(())
        } else {
            Err(signature_invalid(to_string("Unsupported digest algorithm")))
        }
    }

    fn parse_signature_header(signature_header: &str) -> (r: Result<SignatureComponents, Error>)
        ensures
            match signature_header_parsed(signature_header@) {
                Ok((keyid, algorithm, sig, headers)) => (r matches Ok(c) && c.keyid@ == keyid
                    && c.algorithm@ == algorithm && c.signature@ == sig && c.headers@ == headers),
                Err(m) => (r matches Err(Error::KeygenSignatureInvalid { reason }) && reason@ == m),
            },
    {
        let header = chars_of(signature_header);
        let parts = split_chars(header.as_slice(), ',');
        let ghost ps = crate::text::views(parts@);
        let keyid_prefix = chars_of("keyid=");
        let algorithm_prefix = chars_of("algorithm=");
        let signature_prefix = chars_of("signature=");
        let headers_prefix = chars_of("headers=");
        let mut keyid: Vec<char> = Vec::new();
        let mut algorithm: Vec<char> = Vec::new();
        let mut signature_b64: Vec<char> = Vec::new();
        let mut headers: Vec<char> = Vec::new();
        let mut i: usize = 0;
        assert(ps.take(0) =~= Seq::<Seq<char>>::empty());
        while i < parts.len()
            invariant
                i <= parts@.len(),
                ps == crate::text::views(parts@),
                ps == split_spec(signature_header@, ','),
                keyid_prefix@ == "keyid="@,
                algorithm_prefix@ == "algorithm="@,
                signature_prefix@ == "signature="@,
                headers_prefix@ == "headers="@,
                keyid@ == last_field(ps.take(i as int), "keyid="@),
                algorithm@ == last_field(ps.take(i as int), "algorithm="@),
                signature_b64@ == last_field(ps.take(i as int), "signature="@),
                headers@ == last_field(ps.take(i as int), "headers="@),
            decreases parts@.len() - i,
        {
            let part = trim(parts[i].as_slice());
            let ghost t = ps.take(i + 1);
            assert(t.drop_last() =~= ps.take(i as int));
            assert(t.last() == parts@[i as int]@);
            proof {
                lemma_component_prefixes_exclusive(part@);
            }
            if let Some(v) = header_value_of(part.as_slice(), keyid_prefix.as_slice()) {
                keyid = v;
            } else if let Some(v) = header_value_of(part.as_slice(), algorithm_prefix.as_slice()) {
                algorithm = v;
            } else if let Some(v) = header_value_of(part.as_slice(), signature_prefix.as_slice()) {
                signature_b64 = v;
            } else if let Some(v) = header_value_of(part.as_slice(), headers_prefix.as_slice()) {
                headers = v;
            }
            i = i + 1;
        }
        assert(ps.take(i as int) =~= ps);
        if keyid.len() == 0 || algorithm.len() == 0 || signature_b64.len() == 0 || headers.len()
            == 0 {
            return Err(signature_invalid(to_string("Missing signature components")));
        }
        let signature_text = string_of(signature_b64.as_slice());
        let signature = match base64_standard_decode(signature_text.as_str().as_bytes()) {
            Ok(s) => s,
            Err(_) => return Err(signature_invalid(to_string("Invalid signature encoding"))),
        };
        Ok(
            SignatureComponents {
                keyid: string_of(keyid.as_slice()),
                algorithm: string_of(algorithm.as_slice()),
                signature,
                headers: string_of(headers.as_slice()),
            },
        )
    }

    fn verify_ed25519_signature(&self, signing_data: &str, signature_bytes: &[u8]) -> (r: Result<
        (),
        Error,
    >)
        ensures
            signature_outcome(r, ed25519_signature_check(self@, signing_data@, signature_bytes@)),
    {
        let public_key_bytes = match self.public_key_bytes() {
            Ok(k) => k,
            Err(e) => return Err(e),
        };
        let public_key = match ed25519_public_key(public_key_bytes.as_slice()) {
            Ok(k) => k,
            Err(_) => return Err(signature_invalid(to_string("Invalid public key"))),
        };
        let signature = match ed25519_signature(signature_bytes) {
            Ok(s) => s,
            Err(_) => return Err(signature_invalid(to_string("Invalid signature format"))),
        };
        match ed25519_verify(&public_key, signing_data.as_bytes(), &signature) {
            Ok(()) => Ok(()),
            Err(_) => Err(signature_invalid(to_string("Signature verification failed"))),
        }
    }

    /// Verifies the Keygen signature of a response to the request `method
    /// path` sent to `host`, given the response's headers and body.
    pub fn verify_keygen_signature(
        &self,
        headers: &HeaderList,
        body: &[u8],
        method: &str,
        path: &str,
        host: &str,
    ) -> (r: Result<(), Error>)
        ensures
            signature_outcome(
                r,
                response_signature_check(self@, headers.entries@, body@, method@, path@, host@),
            ),
    {
        proof {
            reveal_strlit("keygen-signature");
            reveal_strlit("date");
            reveal_strlit("digest");
            assert(ascii_lower("keygen-signature"@) =~= "keygen-signature"@);
            assert(ascii_lower("date"@) =~= "date"@);
            assert(ascii_lower("digest"@) =~= "digest"@);
        }
        let signature_header = match Self::get_required_header(headers, "keygen-signature") {
            Ok(v) => v,
            Err(e) => return Err(e),
        };
        let date_header = match Self::get_required_header(headers, "date") {
            Ok(v) => v,
            Err(e) => return Err(e),
        };
        let digest_header = match Self::get_required_header(headers, "digest") {
            Ok(v) => v,
            Err(e) => return Err(e),
        };
        match Self::verify_digest(digest_header.as_str(), body) {
            Ok(()) => {},
            Err(e) => return Err(e),
        }
        let components = match Self::parse_signature_header(signature_header.as_str()) {
            Ok(c) => c,
            Err(e) => return Err(e),
        };
        if !chars_eq_str(chars_of(components.algorithm.as_str()).as_slice(), "ed25519") {
            let mut reason = to_string("Unsupported algorithm: ");
            reason.append(components.algorithm.as_str());
            return Err(signature_invalid(reason));
        }
        let mut signing_data = to_string("(request-target): ");
        let method_lower = to_lowercase(method);
        signing_data.append(method_lower.as_str());
        signing_data.append(" ");
        signing_data.append(path);
        signing_data.append("\nhost: ");
        signing_data.append(host);
        signing_data.append("\ndate: ");
        signing_data.append(date_header.as_str());
        signing_data.append("\ndigest: ");
        signing_data.append(digest_header.as_str());
        self.verify_ed25519_signature(signing_data.as_str(), components.signature.as_slice())
    }
}

/// The public key written as `pk_text` is the nonempty hex text of the
/// 32 bytes `pk`, which decode to a curve point.
pub open spec fn hex_key_of(pk_text: Seq<char>, pk: Seq<u8>) -> bool {
    &&& pk_text.len() > 0
    &&& hex_decoded(encode_utf8(pk_text)) == Some(pk)
    &&& pk.len() == 32
    &&& ed25519_key_decodes(pk)
}

/// A genuine signed key verifies to its dataset. Take any dataset written
/// as the URL-safe base64 text `d`, and any Ed25519 signature by the key
/// `pk` of `key/<d>`, written as the URL-safe base64 text `s` (neither
/// holds a `.`, and `d` holds no `/`, as no base64 text does). Then the key
/// `key/<d>.<s>` is accepted, and what comes back is the dataset, whether
/// it is verified by a `Verifier` or as the key of an Ed25519-signed
/// license.
pub proof fn law_genuine_signed_key_verifies(
    pk_text: Seq<char>,
    pk: Seq<u8>,
    d: Seq<char>,
    s: Seq<char>,
    dataset: Seq<u8>,
    sig: Seq<u8>,
    by_verifier: Result<Vec<u8>, Error>,
    by_license: Result<Vec<u8>, Error>,
)
    requires
        hex_key_of(pk_text, pk),
        !d.contains('.'),
        !d.contains('/'),
        !s.contains('.'),
        base64_url_safe_decoded(encode_utf8(d)) == Some(dataset),
        base64_url_safe_decoded(encode_utf8(s)) == Some(sig),
        sig.len() == 64,
        ed25519_verifies(pk, encode_utf8("key/"@ + d), sig),
        bytes_outcome(by_verifier, signed_key_check(pk_text, "key/"@ + d + "."@ + s)),
        license_outcome(pk_text, Some(SchemeCode::Ed25519Sign), "key/"@ + d + "."@ + s, by_license),
    ensures
        by_verifier matches Ok(v) && v@ == dataset,
        by_license matches Ok(v) && v@ == dataset,
{
    reveal_strlit("key/");
    reveal_strlit("key");
    reveal_strlit(".");
    let head = "key/"@ + d;
    let key = "key/"@ + d + "."@ + s;
    assert(key =~= head + seq!['.'] + s);
    assert(!head.contains('.')) by {
        if head.contains('.') {
            let j = choose|j: int| 0 <= j < head.len() && head[j] == '.';
            if j >= 4 {
                assert(d[j - 4] == '.');
            }
        }
    }
    crate::text::lemma_split_after_sep(head, s, '.');
    crate::text::lemma_split_plain(head, '.');
    assert(split_spec(key, '.') =~= seq![head, s]);
    assert(head =~= "key"@ + seq!['/'] + d);
    assert(!"key"@.contains('/'));
    crate::text::lemma_split_after_sep("key"@, d, '/');
    crate::text::lemma_split_plain("key"@, '/');
    assert(split_spec(head, '/') =~= seq!["key"@, d]);
    assert(key.len() > 0);
}

/// A genuinely signed response is accepted, and what is signed is the
/// request target with the method in lower case and the path (with its
/// query) exactly as sent. Take a response whose `keygen-signature`,
/// `date` and `digest` headers are present, whose digest names the SHA-256
/// digest of the body, and whose signature header holds an Ed25519
/// signature by the key `pk` of the text
/// `(request-target): <method in lower case> <path>`, `host: <host>`,
/// `date: <date>`, `digest: <digest>` (one per line). Checking it gives
/// `Ok`.
pub proof fn law_genuine_response_signature_verifies(
    pk_text: Seq<char>,
    pk: Seq<u8>,
    entries: Seq<(String, Option<String>)>,
    body: Seq<u8>,
    method: Seq<char>,
    path: Seq<char>,
    host: Seq<char>,
    sig_header: Seq<char>,
    date: Seq<char>,
    digest: Seq<char>,
    keyid: Seq<char>,
    sig: Seq<u8>,
    signed_headers: Seq<char>,
    r: Result<(), Error>,
)
    requires
        hex_key_of(pk_text, pk),
        header_lookup(entries, "keygen-signature"@) == Some(Some(sig_header)),
        header_lookup(entries, "date"@) == Some(Some(date)),
        header_lookup(entries, "digest"@) == Some(Some(digest)),
        digest == "sha-256="@ + base64_standard_encoded(sha256_digest(body)),
        signature_header_parsed(sig_header) == Ok::<_, Seq<char>>((keyid, "ed25519"@, sig, signed_headers)),
        sig.len() == 64,
        ed25519_verifies(
            pk,
            encode_utf8(
                "(request-target): "@ + lowercase(method) + " "@ + path + "\nhost: "@ + host
                    + "\ndate: "@ + date + "\ndigest: "@ + digest,
            ),
            sig,
        ),
        signature_outcome(r, response_signature_check(pk_text, entries, body, method, path, host)),
    ensures
        r is Ok,
{
    reveal_strlit("sha-256=");
    let enc = base64_standard_encoded(sha256_digest(body));
    assert(digest.take(8) =~= "sha-256="@);
    assert(digest.skip(8) =~= enc);
    assert(has_prefix(digest, "sha-256="@));
    assert(digest_refusal(digest, body) is None);
}

/// A genuinely signed certificate is accepted, whether its dataset is
/// encrypted or only encoded. Take a certificate declaring
/// `aes-256-gcm+ed25519` or `base64+ed25519` whose signature is the padded
/// standard base64 text of an Ed25519 signature by the key `pk` of
/// `<prefix>/<enc>`. Its verdict is genuine, and for the `license` and
/// `machine` prefixes verifying it as a license or machine file gives `Ok`.
pub proof fn law_genuine_certificate_verifies(
    pk_text: Seq<char>,
    pk: Seq<u8>,
    cert: Certificate,
    prefix: Seq<char>,
    sig: Seq<u8>,
    as_license: Result<(), Error>,
    as_machine: Result<(), Error>,
)
    requires
        hex_key_of(pk_text, pk),
        cert.alg@ == "aes-256-gcm+ed25519"@ || cert.alg@ == "base64+ed25519"@,
        base64_standard_decoded(encode_utf8(cert.sig@)) == Some(sig),
        sig.len() == 64,
        ed25519_verifies(pk, encode_utf8(prefix + "/"@ + cert.enc@), sig),
        prefix == "license"@ ==> license_file_verified_as(pk_text, cert, as_license),
        prefix == "machine"@ ==> machine_file_verified_as(pk_text, cert, as_machine),
    ensures
        certificate_verdict(pk_text, cert, prefix) == CertificateVerdict::Genuine,
        prefix == "license"@ ==> as_license is Ok,
        prefix == "machine"@ ==> as_machine is Ok,
{
}

} // verus!
