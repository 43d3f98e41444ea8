//! Decryption of encrypted license and machine file certificates.
//!
//! An encrypted certificate carries `<ciphertext>.<iv>.<tag>`, each part in
//! padded standard base64. The AES-256-GCM key is the SHA-256 digest of the
//! decryption secret (the license key, or the license key and machine
//! fingerprint for machine files).

use vstd::prelude::*;
use vstd::utf8::encode_utf8;

use crate::certificate::Certificate;
use crate::crypto::{aes256_gcm_open, aes256_gcm_opened, base64_standard_decode, base64_standard_decoded, sha256, sha256_digest};
use crate::errors::Error;
use crate::text::{decimal, push_decimal, split_chars, split_spec, string_of, to_string};

verus! {

/// Decrypts certificates with a secret.
pub struct Decryptor {
    secret: String,
}

impl View for Decryptor {
    type V = Seq<char>;

    /// The secret the key is derived from.
    closed spec fn view(&self) -> Seq<char> {
        self.secret@
    }
}

/// What decrypting the encrypted dataset `enc` with `secret` gives: the
/// plaintext, or the message of the decryption error.
pub open spec fn decryption_outcome(secret: Seq<char>, enc: Seq<char>) -> Result<Seq<u8>, Seq<char>> {
    let parts = split_spec(enc, '.');
    if parts.len() != 3 {
        Err("Invalid encrypted data format"@)
    } else {
        match base64_standard_decoded(encode_utf8(parts[0])) {
            None => Err("Failed to decode ciphertext"@),
            Some(ciphertext) => match base64_standard_decoded(encode_utf8(parts[1])) {
                None => Err("Failed to decode IV"@),
                Some(iv) => match base64_standard_decoded(encode_utf8(parts[2])) {
                    None => Err("Failed to decode tag"@),
                    Some(tag) => if iv.len() != 12 {
                        Err("Invalid IV length: expected 12 bytes, got "@ + decimal(iv.len()))
                    } else if tag.len() != 16 {
                        Err(
                            "Invalid authentication tag length: expected 16 bytes, got "@
                                + decimal(tag.len()),
                        )
                    } else {
                        match aes256_gcm_opened(
                            sha256_digest(encode_utf8(secret)),
                            iv,
                            ciphertext + tag,
                        ) {
                            None => Err("Decryption failed"@),
                            Some(plaintext) => Ok(plaintext),
                        }
                    },
                },
            },
        }
    }
}

/// `r` is what `decryption_outcome` describes, the message carried by a
/// `DecryptionError`.
pub open spec fn decrypted_as(r: Result<Vec<u8>, Error>, outcome: Result<Seq<u8>, Seq<char>>) -> bool {
    match outcome {
        Ok(p) => r matches Ok(v) && v@ == p,
        Err(m) => r matches Err(Error::DecryptionError(s)) && s@ == m,
    }
}

fn decryption_error(message: &str) -> (r: Result<Vec<u8>, Error>)
    ensures
        r matches Err(Error::DecryptionError(s)) && s@ == message@,
{
    Err(Error::DecryptionError(to_string(message)))
}

fn length_error(message: &str, len: usize) -> (r: Result<Vec<u8>, Error>)
    ensures
        r matches Err(Error::DecryptionError(s)) && s@ == message@ + decimal(len as nat),
{
    let mut text = to_string(message);
    push_decimal(&mut text, len as u64);
    Err(Error::DecryptionError(text))
}

impl Decryptor {
    /// A decryptor for the given secret.
    pub fn new(secret: String) -> (r: Self)
        ensures
            r@ == secret@,
    {
        Self { secret }
    }

    /// `Zeroize::zeroize` on the secret: overwrites its bytes with zeros
    /// and leaves it empty.
    #[verifier::external_body]
    pub fn zeroize(&mut self)
        ensures
            final(self)@ == Seq::<char>::empty(),
    {
        zeroize::Zeroize::zeroize(&mut self.secret);
    }

    /// Decrypts the dataset of an encrypted certificate.
    pub fn decrypt_certificate(&self, cert: &Certificate) -> (r: Result<Vec<u8>, Error>)
        ensures
            decrypted_as(r, decryption_outcome(self@, cert.enc@)),
    {
        let enc = crate::text::chars_of(cert.enc.as_str());
        let parts = split_chars(enc.as_slice(), '.');
        if parts.len() != 3 {
            return decryption_error("Invalid encrypted data format");
        }
        assert(parts@[0]@ == split_spec(cert.enc@, '.')[0]);
        assert(parts@[1]@ == split_spec(cert.enc@, '.')[1]);
        assert(parts@[2]@ == split_spec(cert.enc@, '.')[2]);
        let ciphertext_text = string_of(parts[0].as_slice());
        let iv_text = string_of(parts[1].as_slice());
        let tag_text = string_of(parts[2].as_slice());
        let ciphertext = match base64_standard_decode(ciphertext_text.as_str().as_bytes()) {
            Ok(c) => c,
            Err(_) => return decryption_error("Failed to decode ciphertext"),
        };
        let iv = match base64_standard_decode(iv_text.as_str().as_bytes()) {
            Ok(v) => v,
            Err(_) => return decryption_error("Failed to decode IV"),
        };
        let tag = match base64_standard_decode(tag_text.as_str().as_bytes()) {
            Ok(t) => t,
            Err(_) => return decryption_error("Failed to decode tag"),
        };
        if iv.len() != 12 {
            return length_error("Invalid IV length: expected 12 bytes, got ", iv.len());
        }
        if tag.len() != 16 {
            return length_error(
                "Invalid authentication tag length: expected 16 bytes, got ",
                tag.len(),
            );
        }
        let key = sha256(self.secret.as_str().as_bytes());
        let mut data = ciphertext;
        let mut extra = tag;
        data.append(&mut extra);
        match aes256_gcm_open(key.as_slice(), iv.as_slice(), data.as_slice()) {
            Some(plaintext) => Ok(plaintext),
            None => decryption_error("Decryption failed"),
        }
    }
}

/// An encrypted dataset opens under the secret it was sealed with. Take
/// `enc` written as `<c>.<i>.<t>`, three padded standard base64 texts
/// without a `.`, decoding to a ciphertext, a 12-byte IV and a 16-byte
/// tag, which AES-256-GCM opens to `plain` under the SHA-256 digest of the
/// secret's UTF-8 bytes. Then decrypting `enc` with that secret gives
/// `plain`.
pub proof fn law_sealed_dataset_opens(
    secret: Seq<char>,
    enc: Seq<char>,
    c: Seq<char>,
    i: Seq<char>,
    t: Seq<char>,
    ciphertext: Seq<u8>,
    iv: Seq<u8>,
    tag: Seq<u8>,
    plain: Seq<u8>,
)
    requires
        enc == c + "."@ + i + "."@ + t,
        !c.contains('.'),
        !i.contains('.'),
        !t.contains('.'),
        base64_standard_decoded(encode_utf8(c)) == Some(ciphertext),
        base64_standard_decoded(encode_utf8(i)) == Some(iv),
        base64_standard_decoded(encode_utf8(t)) == Some(tag),
        iv.len() == 12,
        tag.len() == 16,
        aes256_gcm_opened(sha256_digest(encode_utf8(secret)), iv, ciphertext + tag) == Some(plain),
    ensures
        decryption_outcome(secret, enc) == Ok::<Seq<u8>, Seq<char>>(plain),
{
    reveal_strlit(".");
    assert(enc =~= (c + seq!['.'] + i) + seq!['.'] + t);
    crate::text::lemma_split_plain(c, '.');
    crate::text::lemma_split_after_sep(c, i, '.');
    crate::text::lemma_split_after_sep(c + seq!['.'] + i, t, '.');
    assert(split_spec(enc, '.') =~= seq![c, i, t]);
}

} // verus!
