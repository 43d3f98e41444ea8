//! License files: a signed (and possibly encrypted) certificate of a
//! license's dataset, armored between `LICENSE FILE` lines.
//!
//! The certificate and the dataset are JSON documents; turning their bytes
//! into values is left to the caller. What is decided here is how the file
//! is framed, which algorithms are accepted for which operation, how the
//! signature is checked, and when the dataset has expired.

use vstd::prelude::*;
use vstd::utf8::encode_utf8;

use crate::certificate::{
    armored_bytes, armored_payload, certificate_expired, lemma_armored_payload_of_lines, current_time, ArmorError, Certificate,
    CertificateFileMeta, Timestamp,
};
use crate::config::KeygenConfig;
use crate::crypto::{aes256_gcm_opened, base64_standard_decode, base64_standard_decoded, sha256_digest};
use crate::decryptor::{decrypted_as, decryption_outcome, Decryptor};
use crate::errors::Error;
use crate::license::LicenseFileAlgorithm;
use crate::signing::{license_file_verified_as, Verifier};
use crate::text::{all_white_space, is_white_space, joined_lines, solid_lines, to_string};

verus! {

/// The line that opens an armored license file.
pub open spec fn license_file_begin() -> Seq<char> {
    "-----BEGIN LICENSE FILE-----"@
}

/// The line that closes an armored license file.
pub open spec fn license_file_end() -> Seq<char> {
    "-----END LICENSE FILE-----"@
}

/// `r` is what reading the certificate of the armored `content` gives: the
/// certificate's JSON bytes, or a `LicenseFileInvalid` error.
pub open spec fn license_certificate_read_as(content: Seq<char>, r: Result<Vec<u8>, Error>) -> bool {
    match armored_payload(content, license_file_begin(), license_file_end()) {
        None => r matches Err(Error::LicenseFileInvalid(m)) && m@ == "Invalid license file format"@,
        Some(p) => match base64_standard_decoded(encode_utf8(p)) {
            None => r matches Err(Error::LicenseFileInvalid(_)),
            Some(b) => r matches Ok(v) && v@ == b,
        },
    }
}

/// `r` is the outcome of decrypting a license file certificate with the
/// secret `key`: unknown algorithms are not supported, an unencrypted
/// certificate has nothing to decrypt, and an encrypted one is decrypted.
pub open spec fn license_dataset_decrypted_as(key: Seq<char>, cert: Certificate, r: Result<Vec<u8>, Error>) -> bool {
    match LicenseFileAlgorithm::with_code(cert.alg@) {
        None => r matches Err(Error::LicenseFileNotSupported(m)) && m@ == cert.alg@,
        Some(a) => if !a.encrypted() {
            r matches Err(Error::LicenseFileNotEncrypted)
        } else {
            decrypted_as(r, decryption_outcome(key, cert.enc@))
        },
    }
}

/// `r` is the algorithm a certificate declares, or `LicenseFileNotSupported`
/// with the declared code when no algorithm has that code.
pub open spec fn license_algorithm_as(alg: Seq<char>, r: Result<LicenseFileAlgorithm, Error>) -> bool {
    match LicenseFileAlgorithm::with_code(alg) {
        Some(a) => r == Ok::<LicenseFileAlgorithm, Error>(a),
        None => r matches Err(Error::LicenseFileNotSupported(m)) && m@ == alg,
    }
}

/// A license file as the API hands it out.
#[derive(Debug, Clone)]
pub struct LicenseFile {
    pub id: String,
    pub certificate: String,
    pub issued: Timestamp,
    pub expiry: Timestamp,
    pub ttl: i32,
}

impl LicenseFile {
    /// The JSON bytes of the certificate inside this file.
    pub fn certificate_json(&self) -> (r: Result<Vec<u8>, Error>)
        ensures
            license_certificate_read_as(self.certificate@, r),
    {
        match armored_bytes(
            self.certificate.as_str(),
            "-----BEGIN LICENSE FILE-----",
            "-----END LICENSE FILE-----",
        ) {
            Ok(v) => Ok(v),
            Err(ArmorError::Missing) => Err(
                Error::LicenseFileInvalid(to_string("Invalid license file format")),
            ),
            Err(ArmorError::Undecodable(m)) => Err(Error::LicenseFileInvalid(m)),
        }
    }

    /// The algorithm the certificate declares.
    pub fn algorithm(cert: &Certificate) -> (r: Result<LicenseFileAlgorithm, Error>)
        ensures
            license_algorithm_as(cert.alg@, r),
    {
        match LicenseFileAlgorithm::from_code(cert.alg.as_str()) {
            Some(a) => Ok(a),
            None => Err(Error::LicenseFileNotSupported(cert.alg.clone())),
        }
    }

    /// Verifies the certificate's signature with an explicit public key,
    /// under the algorithm the certificate declares.
    pub fn verify_with_key(cert: &Certificate, public_key: &str) -> (r: Result<(), Error>)
        ensures
            license_file_verified_as(public_key@, *cert, r),
    {
        Verifier::new(to_string(public_key)).verify_license_file(cert)
    }

    /// Verifies the certificate only when it declares the algorithm the
    /// caller expects; any other algorithm is refused before the signature
    /// is looked at.
    pub fn verify_with_key_and_algorithm(
        cert: &Certificate,
        public_key: &str,
        expected_algorithm: LicenseFileAlgorithm,
    ) -> (r: Result<(), Error>)
        ensures
            match LicenseFileAlgorithm::with_code(cert.alg@) {
                None => r matches Err(Error::LicenseFileNotSupported(m)) && m@ == cert.alg@,
                Some(a) => if a != expected_algorithm {
                    r matches Err(Error::LicenseFileAlgorithmMismatch { expected, actual })
                        && expected@ == expected_algorithm.code() && actual@ == a.code()
                } else {
                    license_file_verified_as(public_key@, *cert, r)
                },
            },
    {
        let actual = match Self::algorithm(cert) {
            Ok(a) => a,
            Err(e) => return Err(e),
        };
        if actual != expected_algorithm {
            return Err(
                Error::LicenseFileAlgorithmMismatch {
                    expected: to_string(expected_algorithm.as_str()),
                    actual: to_string(actual.as_str()),
                },
            );
        }
        Self::verify_with_key(cert, public_key)
    }

    /// Verifies the certificate with the public key of `config`.
    pub fn verify(cert: &Certificate, config: &KeygenConfig) -> (r: Result<(), Error>)
        ensures
            match config.public_key {
                Some(pk) => license_file_verified_as(pk@, *cert, r),
                None => r matches Err(Error::PublicKeyMissing),
            },
    {
        match &config.public_key {
            Some(pk) => Verifier::new(pk.clone()).verify_license_file(cert),
            None => Err(Error::PublicKeyMissing),
        }
    }

    /// The decrypted dataset of an encrypted certificate; `key` is the
    /// decryption secret. Unknown algorithms are not supported, and an
    /// unencrypted certificate has nothing to decrypt.
    pub fn decrypt_dataset(cert: &Certificate, key: &str) -> (r: Result<Vec<u8>, Error>)
        ensures
            license_dataset_decrypted_as(key@, *cert, r),
    {
        let algorithm = match Self::algorithm(cert) {
            Ok(a) => a,
            Err(e) => return Err(e),
        };
        if !algorithm.is_encrypted() {
            return Err(Error::LicenseFileNotEncrypted);
        }
        let mut decryptor = Decryptor::new(to_string(key));
        let r = decryptor.decrypt_certificate(cert);
        decryptor.zeroize();
        r
    }

    /// The decoded dataset of an unencrypted certificate. Unknown and
    /// encrypted algorithms are not supported here.
    pub fn decode_dataset(cert: &Certificate) -> (r: Result<Vec<u8>, Error>)
        ensures
            match LicenseFileAlgorithm::with_code(cert.alg@) {
                None => r matches Err(Error::LicenseFileNotSupported(m)) && m@ == cert.alg@,
                Some(a) => if a.encrypted() {
                    r matches Err(Error::LicenseFileNotSupported(m)) && m@ == cert.alg@
                } else {
                    match base64_standard_decoded(encode_utf8(cert.enc@)) {
                        None => r matches Err(Error::LicenseFileInvalid(_)),
                        Some(b) => r matches Ok(v) && v@ == b,
                    }
                },
            },
    {
        let algorithm = match Self::algorithm(cert) {
            Ok(a) => a,
            Err(e) => return Err(e),
        };
        if algorithm.is_encrypted() {
            return Err(Error::LicenseFileNotSupported(cert.alg.clone()));
        }
        match base64_standard_decode(cert.enc.as_str().as_bytes()) {
            Ok(v) => Ok(v),
            Err(m) => Err(Error::LicenseFileInvalid(m)),
        }
    }

    /// Checks the validity period of a dataset at the instant `now`.
    pub fn dataset_validity_at(meta: &CertificateFileMeta, now: Timestamp) -> (r: Result<(), Error>)
        ensures
            certificate_expired(*meta, now) ==> r matches Err(Error::LicenseFileExpired),
            !certificate_expired(*meta, now) ==> r is Ok,
    {
        if meta.ttl != 0 && now.is_after(meta.expiry) {
            Err(Error::LicenseFileExpired)
        } else {
            Ok(())
        }
    }

    /// Checks the validity period of a dataset against the system clock. A
    /// dataset without a time to live never expires.
    pub fn dataset_validity(meta: &CertificateFileMeta) -> (r: Result<(), Error>)
        ensures
            meta.ttl == 0 ==> r is Ok,
            r is Err ==> r matches Err(Error::LicenseFileExpired),
    {
        Self::dataset_validity_at(meta, current_time())
    }
}

/// An encrypted license file opens under the key it was sealed with: for a
/// certificate declaring `aes-256-gcm+ed25519` whose dataset was sealed as
/// `law_sealed_dataset_opens` describes under `key`, decrypting it with
/// `key` gives the plaintext.
pub proof fn law_sealed_license_file_opens(
    key: Seq<char>,
    cert: Certificate,
    c: Seq<char>,
    i: Seq<char>,
    t: Seq<char>,
    ciphertext: Seq<u8>,
    iv: Seq<u8>,
    tag: Seq<u8>,
    plain: Seq<u8>,
    r: Result<Vec<u8>, Error>,
)
    requires
        cert.alg@ == "aes-256-gcm+ed25519"@,
        cert.enc@ == c + "."@ + i + "."@ + t,
        !c.contains('.'),
        !i.contains('.'),
        !t.contains('.'),
        base64_standard_decoded(encode_utf8(c)) == Some(ciphertext),
        base64_standard_decoded(encode_utf8(i)) == Some(iv),
        base64_standard_decoded(encode_utf8(t)) == Some(tag),
        iv.len() == 12,
        tag.len() == 16,
        aes256_gcm_opened(sha256_digest(encode_utf8(key)), iv, ciphertext + tag) == Some(plain),
        license_dataset_decrypted_as(key, cert, r),
    ensures
        r matches Ok(v) && v@ == plain,
{
    crate::decryptor::law_sealed_dataset_opens(key, cert.enc@, c, i, t, ciphertext, iv, tag, plain);
    crate::license::law_algorithm_code_round_trip(LicenseFileAlgorithm::Aes256GcmEd25519);
}

/// An armored license file whose base64 payload is wrapped over lines reads
/// to the decoding of those lines put back together: for lines without white
/// space, the file `BEGIN`, line break, the lines separated by line breaks,
/// line break, `END` (with any white space before and after) gives the
/// decoded bytes when their concatenation decodes, and an invalid-file
/// error when it does not.
pub proof fn law_wrapped_license_file_reads_joined_payload(
    lead: Seq<char>,
    lines: Seq<Seq<char>>,
    tail: Seq<char>,
    r: Result<Vec<u8>, Error>,
)
    requires
        lines.len() > 0,
        solid_lines(lines),
        all_white_space(lead),
        all_white_space(tail),
        license_certificate_read_as(
            lead + license_file_begin() + seq!['\n'] + joined_lines(lines) + seq!['\n']
                + license_file_end() + tail,
            r,
        ),
    ensures
        match base64_standard_decoded(encode_utf8(lines.flatten())) {
            Some(b) => r matches Ok(v) && v@ == b,
            None => r matches Err(Error::LicenseFileInvalid(_)),
        },
{
    reveal_strlit("-----BEGIN LICENSE FILE-----");
    reveal_strlit("-----END LICENSE FILE-----");
    assert(!is_white_space(license_file_begin()[0]));
    assert(!is_white_space(license_file_end().last()));
    lemma_armored_payload_of_lines(lead, license_file_begin(), lines, license_file_end(), tail);
}

} // verus!
