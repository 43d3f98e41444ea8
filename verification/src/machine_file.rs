//! Machine files: an encrypted, signed certificate of a machine's dataset,
//! armored between `MACHINE FILE` lines.
//!
//! As for license files, the JSON documents inside are read by the caller;
//! framing, algorithm rules, signature and validity checks are decided here.

use vstd::prelude::*;
use vstd::utf8::encode_utf8;

use crate::certificate::{
    armored_bytes, armored_payload, certificate_expired, lemma_armored_payload_of_lines, current_time, ArmorError, Certificate,
    CertificateFileMeta, Timestamp,
};
use crate::config::KeygenConfig;
use crate::crypto::{aes256_gcm_opened, base64_standard_decoded, sha256_digest};
use crate::decryptor::{decrypted_as, decryption_outcome, Decryptor};
use crate::errors::Error;
use crate::signing::{machine_file_verified_as, Verifier};
use crate::text::{
    all_white_space, chars_eq_str, chars_of, is_white_space, joined_lines, solid_lines, to_string,
};

verus! {

/// The line that opens an armored machine file.
pub open spec fn machine_file_begin() -> Seq<char> {
    "-----BEGIN MACHINE FILE-----"@
}

/// The line that closes an armored machine file.
pub open spec fn machine_file_end() -> Seq<char> {
    "-----END MACHINE FILE-----"@
}

/// `r` is what reading the certificate of the armored `content` gives: the
/// certificate's JSON bytes, or a `MachineFileInvalid` error.
pub open spec fn machine_certificate_read_as(content: Seq<char>, r: Result<Vec<u8>, Error>) -> bool {
    match armored_payload(content, machine_file_begin(), machine_file_end()) {
        None => r matches Err(Error::MachineFileInvalid(m)) && m@ == "Invalid machine file format"@,
        Some(p) => match base64_standard_decoded(encode_utf8(p)) {
            None => r matches Err(Error::MachineFileInvalid(_)),
            Some(b) => r matches Ok(v) && v@ == b,
        },
    }
}

/// `r` is the outcome of decrypting a machine file certificate declaring
/// `alg` with the secret `key`: only `aes-256-gcm+ed25519` is decrypted,
/// the RSA variants of AES-256-GCM are not supported, and every other
/// algorithm is taken for an unencrypted one.
pub open spec fn machine_dataset_decrypted_as(
    key: Seq<char>,
    cert: Certificate,
    r: Result<Vec<u8>, Error>,
) -> bool {
    if cert.alg@ == "aes-256-gcm+rsa-pss-sha256"@ || cert.alg@ == "aes-256-gcm+rsa-sha256"@ {
        r matches Err(Error::LicenseFileNotSupported(m)) && m@ == cert.alg@
    } else if cert.alg@ == "aes-256-gcm+ed25519"@ {
        decrypted_as(r, decryption_outcome(key, cert.enc@))
    } else {
        r matches Err(Error::LicenseFileNotEncrypted)
    }
}

/// `r` is the outcome of verifying a machine file that expires at `expiry`,
/// at the instant `now`, with the public key of `config`: an expired file
/// is refused before anything else.
pub open spec fn machine_file_checked_as(
    expiry: Timestamp,
    now: Timestamp,
    config: KeygenConfig,
    cert: Certificate,
    r: Result<(), Error>,
) -> bool {
    if now.after(expiry) {
        r matches Err(Error::MachineFileExpired)
    } else {
        match config.public_key {
            Some(pk) => machine_file_verified_as(pk@, cert, r),
            None => r matches Err(Error::PublicKeyMissing),
        }
    }
}

/// A machine file as the API hands it out.
#[derive(Debug, Clone)]
pub struct MachineFile {
    pub id: String,
    pub certificate: String,
    pub issued: Timestamp,
    pub expiry: Timestamp,
    pub ttl: i32,
}

impl MachineFile {
    /// The JSON bytes of the certificate inside this file.
    pub fn certificate_json(&self) -> (r: Result<Vec<u8>, Error>)
        ensures
            machine_certificate_read_as(self.certificate@, r),
    {
        match armored_bytes(
            self.certificate.as_str(),
            "-----BEGIN MACHINE FILE-----",
            "-----END MACHINE FILE-----",
        ) {
            Ok(v) => Ok(v),
            Err(ArmorError::Missing) => Err(
                Error::MachineFileInvalid(to_string("Invalid machine file format")),
            ),
            Err(ArmorError::Undecodable(m)) => Err(Error::MachineFileInvalid(m)),
        }
    }

    /// The decrypted dataset of a machine file certificate; `key` is the
    /// decryption secret.
    pub fn decrypt_dataset(cert: &Certificate, key: &str) -> (r: Result<Vec<u8>, Error>)
        ensures
            machine_dataset_decrypted_as(key@, *cert, r),
    {
        let alg = chars_of(cert.alg.as_str());
        if chars_eq_str(alg.as_slice(), "aes-256-gcm+rsa-pss-sha256") || chars_eq_str(
            alg.as_slice(),
            "aes-256-gcm+rsa-sha256",
        ) {
            return Err(Error::LicenseFileNotSupported(cert.alg.clone()));
        }
        if !chars_eq_str(alg.as_slice(), "aes-256-gcm+ed25519") {
            return Err(Error::LicenseFileNotEncrypted);
        }
        let mut decryptor = Decryptor::new(to_string(key));
        let r = decryptor.decrypt_certificate(cert);
        decryptor.zeroize();
        r
    }

    /// Checks the validity period of a dataset at the instant `now`.
    pub fn dataset_validity_at(meta: &CertificateFileMeta, now: Timestamp) -> (r: Result<(), Error>)
        ensures
            certificate_expired(*meta, now) ==> r matches Err(Error::MachineFileExpired),
            !certificate_expired(*meta, now) ==> r is Ok,
    {
        if meta.ttl != 0 && now.is_after(meta.expiry) {
            Err(Error::MachineFileExpired)
        } else {
            Ok(())
        }
    }

    /// Checks that the file has not passed its expiry at the instant `now`.
    pub fn validate_ttl_at(&self, now: Timestamp) -> (r: Result<(), Error>)
        ensures
            now.after(self.expiry) ==> r matches Err(Error::MachineFileExpired),
            !now.after(self.expiry) ==> r is Ok,
    {
        if now.is_after(self.expiry) {
            Err(Error::MachineFileExpired)
        } else {
            Ok(())
        }
    }

    /// Checks that the file has not passed its expiry, by the system clock.
    pub fn validate_ttl(&self) -> (r: Result<(), Error>)
        ensures
            r is Ok || r matches Err(Error::MachineFileExpired),
    {
        self.validate_ttl_at(current_time())
    }

    /// Verifies the file at the instant `now`: it must not have expired,
    /// and its certificate must carry a valid signature under the public
    /// key of `config`.
    pub fn verify_at(&self, cert: &Certificate, config: &KeygenConfig, now: Timestamp) -> (r: Result<
        (),
        Error,
    >)
        ensures
            machine_file_checked_as(self.expiry, now, *config, *cert, r),
    {
        match self.validate_ttl_at(now) {
            Ok(()) => {},
            Err(e) => return Err(e),
        }
        match &config.public_key {
            Some(pk) => Verifier::new(pk.clone()).verify_machine_file(cert),
            None => Err(Error::PublicKeyMissing),
        }
    }

    /// Verifies the file against the system clock.
    pub fn verify(&self, cert: &Certificate, config: &KeygenConfig) -> (r: Result<(), Error>)
        ensures
            exists|now: Timestamp| machine_file_checked_as(self.expiry, now, *config, *cert, r),
    {
        let now = current_time();
        self.verify_at(cert, config, now)
    }
}

/// An encrypted machine file opens under the key it was sealed with: for a
/// certificate declaring `aes-256-gcm+ed25519` whose dataset was sealed as
/// `law_sealed_dataset_opens` describes under `key` (the license key
/// followed by the machine fingerprint), decrypting it with `key` gives the
/// plaintext.
pub proof fn law_sealed_machine_file_opens(
    key: Seq<char>,
    cert: Certificate,
    c: Seq<char>,
    i: Seq<char>,
    t: Seq<char>,
    ciphertext: Seq<u8>,
    iv: Seq<u8>,
    tag: Seq<u8>,
    plain: Seq<u8>,
    r: Result<Vec<u8>, Error>,
)
    requires
        cert.alg@ == "aes-256-gcm+ed25519"@,
        cert.enc@ == c + "."@ + i + "."@ + t,
        !c.contains('.'),
        !i.contains('.'),
        !t.contains('.'),
        base64_standard_decoded(encode_utf8(c)) == Some(ciphertext),
        base64_standard_decoded(encode_utf8(i)) == Some(iv),
        base64_standard_decoded(encode_utf8(t)) == Some(tag),
        iv.len() == 12,
        tag.len() == 16,
        aes256_gcm_opened(sha256_digest(encode_utf8(key)), iv, ciphertext + tag) == Some(plain),
        machine_dataset_decrypted_as(key, cert, r),
    ensures
        r matches Ok(v) && v@ == plain,
{
    reveal_strlit("aes-256-gcm+ed25519");
    reveal_strlit("aes-256-gcm+rsa-pss-sha256");
    reveal_strlit("aes-256-gcm+rsa-sha256");
    assert("aes-256-gcm+ed25519"@ != "aes-256-gcm+rsa-pss-sha256"@ ) by {
        assert("aes-256-gcm+ed25519"@.len() != "aes-256-gcm+rsa-pss-sha256"@.len());
    }
    assert("aes-256-gcm+ed25519"@ != "aes-256-gcm+rsa-sha256"@ ) by {
        assert("aes-256-gcm+ed25519"@.len() != "aes-256-gcm+rsa-sha256"@.len());
    }
    crate::decryptor::law_sealed_dataset_opens(key, cert.enc@, c, i, t, ciphertext, iv, tag, plain);
}

/// An armored machine file whose base64 payload is wrapped over lines reads
/// to the decoding of those lines put back together: for lines without white
/// space, the file `BEGIN`, line break, the lines separated by line breaks,
/// line break, `END` (with any white space before and after) gives the
/// decoded bytes when their concatenation decodes, and an invalid-file
/// error when it does not.
pub proof fn law_wrapped_machine_file_reads_joined_payload(
    lead: Seq<char>,
    lines: Seq<Seq<char>>,
    tail: Seq<char>,
    r: Result<Vec<u8>, Error>,
)
    requires
        lines.len() > 0,
        solid_lines(lines),
        all_white_space(lead),
        all_white_space(tail),
        machine_certificate_read_as(
            lead + machine_file_begin() + seq!['\n'] + joined_lines(lines) + seq!['\n']
                + machine_file_end() + tail,
            r,
        ),
    ensures
        match base64_standard_decoded(encode_utf8(lines.flatten())) {
            Some(b) => r matches Ok(v) && v@ == b,
            None => r matches Err(Error::MachineFileInvalid(_)),
        },
{
    reveal_strlit("-----BEGIN MACHINE FILE-----");
    reveal_strlit("-----END MACHINE FILE-----");
    assert(!is_white_space(machine_file_begin()[0]));
    assert(!is_white_space(machine_file_end().last()));
    lemma_armored_payload_of_lines(lead, machine_file_begin(), lines, machine_file_end(), tail);
}

} // verus!
