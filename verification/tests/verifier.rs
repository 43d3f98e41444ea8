use base64::engine::general_purpose;
use base64::Engine;
use ed25519_dalek::{Signer, SigningKey};
use keygen_rs::certificate::Certificate;
use keygen_rs::config::KeygenConfig;
use keygen_rs::errors::Error;
use keygen_rs::headers::HeaderList;
use keygen_rs::license::{License, SchemeCode};
use keygen_rs::license_file::LicenseFile;
use keygen_rs::signing::{extract_header_value, Verifier};
use keygen_rs::verify;
use sha2::{Digest, Sha256};

fn signing_key() -> SigningKey {
    SigningKey::from_bytes(&[7u8; 32])
}

fn generate_valid_keys() -> (String, String) {
    let keypair = signing_key();
    let public_key = hex::encode(keypair.verifying_key().as_bytes());

    let payload = r#"{"exp":"2025-12-31","iss":"keygen","lic":"TEST-LICENSE-KEY"}"#;
    let payload_encoded = general_purpose::URL_SAFE.encode(payload);

    let signing_input = format!("key/{}", payload_encoded);
    let signature = keypair.sign(signing_input.as_bytes());

    let license_key = format!(
        "{}.{}",
        signing_input,
        general_purpose::URL_SAFE.encode(signature.to_bytes())
    );

    (public_key, license_key)
}

fn create_test_license(key: &str) -> License {
    License::from_signed_key(SchemeCode::Ed25519Sign, key)
}

#[test]
fn test_verify_license() {
    let (public_key, license_key) = generate_valid_keys();
    let verifier = Verifier::new(public_key);
    let license = create_test_license(&license_key);

    let result = verifier.verify_license(&license);
    assert!(result.is_ok());
    assert_eq!(
        result.unwrap(),
        br#"{"exp":"2025-12-31","iss":"keygen","lic":"TEST-LICENSE-KEY"}"#.to_vec()
    );
}

#[test]
fn test_verify_license_with_missing_key() {
    let (public_key, _) = generate_valid_keys();
    let verifier = Verifier::new(public_key);
    let mut license = create_test_license("");
    license.key = String::new();

    let result = verifier.verify_license(&license);
    assert!(matches!(result, Err(Error::LicenseKeyMissing)));
}

#[test]
fn test_verify_license_with_missing_scheme() {
    let (public_key, license_key) = generate_valid_keys();
    let verifier = Verifier::new(public_key);
    let mut license = create_test_license(&license_key);
    license.scheme = None;

    let result = verifier.verify_license(&license);
    assert!(matches!(result, Err(Error::LicenseSchemeMissing)));
}

#[test]
fn test_verify_license_with_invalid_key() {
    let (public_key, _) = generate_valid_keys();
    let verifier = Verifier::new(public_key);
    let license = create_test_license("invalid.license.key");

    let result = verifier.verify_license(&license);
    assert!(matches!(result, Err(Error::LicenseKeyNotGenuine)));
}

#[test]
fn test_verify_license_with_invalid_public_key() {
    let (_, license_key) = generate_valid_keys();
    let verifier = Verifier::new("invalid_public_key".to_string());
    let license = create_test_license(&license_key);

    let result = verifier.verify_license(&license);
    assert!(matches!(result, Err(Error::PublicKeyInvalid)));
}

#[test]
fn test_verify_license_with_missing_public_key() {
    let (_, license_key) = generate_valid_keys();
    let verifier = Verifier::new("".to_string());
    let license = create_test_license(&license_key);

    let result = verifier.verify_license(&license);
    assert!(matches!(result, Err(Error::PublicKeyMissing)));
}

#[test]
fn tampered_license_keys_are_not_genuine() {
    let (public_key, license_key) = generate_valid_keys();
    let verifier = Verifier::new(public_key);
    let tampered = license_key.replacen("key/", "key/e", 1);
    assert!(matches!(
        verifier.verify_license(&create_test_license(&tampered)),
        Err(Error::LicenseKeyNotGenuine)
    ));
    let other_scheme = License::from_signed_key(SchemeCode::Rsa2048Pkcs1SignV2, &license_key);
    assert!(matches!(
        verifier.verify_license(&other_scheme),
        Err(Error::LicenseSchemeUnsupported)
    ));
}

#[test]
fn verify_uses_the_configured_public_key() {
    let (public_key, license_key) = generate_valid_keys();
    let mut config = KeygenConfig::default();
    assert!(matches!(
        verify(SchemeCode::Ed25519Sign, &license_key, &config),
        Err(Error::PublicKeyMissing)
    ));
    config.public_key = Some(public_key);
    assert!(verify(SchemeCode::Ed25519Sign, &license_key, &config).is_ok());
}

fn signed_headers(keypair: &SigningKey, body: &[u8], target: &str, host: &str) -> HeaderList {
    let digest_header = format!(
        "sha-256={}",
        general_purpose::STANDARD.encode(Sha256::digest(body))
    );
    let date = "Wed, 09 Jun 2021 16:08:15 GMT";
    let signing_data = format!(
        "(request-target): {}\nhost: {}\ndate: {}\ndigest: {}",
        target, host, date, digest_header
    );
    let signature = keypair.sign(signing_data.as_bytes());
    let signature_header = format!(
        r#"keyid="test-account", algorithm="ed25519", signature="{}", headers="(request-target) host date digest""#,
        general_purpose::STANDARD.encode(signature.to_bytes())
    );
    HeaderList {
        entries: vec![
            ("keygen-signature".to_string(), Some(signature_header)),
            ("date".to_string(), Some(date.to_string())),
            ("digest".to_string(), Some(digest_header)),
        ],
    }
}

#[test]
fn test_verify_keygen_signature() {
    let keypair = signing_key();
    let public_key = hex::encode(keypair.verifying_key().as_bytes());
    let body = b"test body";
    let headers = signed_headers(
        &keypair,
        body,
        "get /v1/accounts/keygen/licenses?limit=1",
        "api.keygen.sh",
    );

    let verifier = Verifier::new(public_key);
    let result = verifier.verify_keygen_signature(
        &headers,
        body,
        "GET",
        "/v1/accounts/keygen/licenses?limit=1",
        "api.keygen.sh",
    );
    assert!(
        result.is_ok(),
        "Signature verification should succeed: {:?}",
        result
    );
}

#[test]
fn test_verify_keygen_signature_with_missing_header() {
    let keypair = signing_key();
    let public_key = hex::encode(keypair.verifying_key().as_bytes());

    let body = b"test body";
    let headers = HeaderList { entries: Vec::new() };

    let verifier = Verifier::new(public_key);
    let result = verifier.verify_keygen_signature(
        &headers,
        body,
        "GET",
        "/v1/accounts/keygen/licenses?limit=1",
        "api.keygen.sh",
    );
    assert!(matches!(result, Err(Error::KeygenSignatureInvalid { .. })));
}

#[test]
fn keygen_signatures_cover_the_body_and_target() {
    let keypair = signing_key();
    let public_key = hex::encode(keypair.verifying_key().as_bytes());
    let headers = signed_headers(&keypair, b"test body", "get /v1/me", "api.keygen.sh");
    let verifier = Verifier::new(public_key);

    assert!(verifier.verify_keygen_signature(&headers, b"test body", "GET", "/v1/me", "api.keygen.sh").is_ok());
    assert!(matches!(
        verifier.verify_keygen_signature(&headers, b"other body", "GET", "/v1/me", "api.keygen.sh"),
        Err(Error::KeygenSignatureInvalid { .. })
    ));
    assert!(matches!(
        verifier.verify_keygen_signature(&headers, b"test body", "POST", "/v1/me", "api.keygen.sh"),
        Err(Error::KeygenSignatureInvalid { .. })
    ));
}

#[test]
fn signature_header_values_lose_prefix_and_quotes() {
    assert_eq!(
        extract_header_value(r#"signature="abc==""#, "signature="),
        Some("abc==".to_string())
    );
    assert_eq!(extract_header_value("keyid=x", "signature="), None);
}

#[test]
fn license_file_certificates_are_verified_over_license_prefix() {
    let keypair = signing_key();
    let public_key = hex::encode(keypair.verifying_key().as_bytes());
    let enc = "ZGF0YXNldA==";
    let signature = keypair.sign(format!("license/{enc}").as_bytes());
    let cert = Certificate {
        enc: enc.to_string(),
        sig: general_purpose::STANDARD.encode(signature.to_bytes()),
        alg: "base64+ed25519".to_string(),
    };
    assert!(LicenseFile::verify_with_key(&cert, &public_key).is_ok());
    let verifier = Verifier::new(public_key.clone());
    assert!(matches!(verifier.verify_machine_file(&cert), Err(Error::MachineFileNotGenuine(_))));

    let rsa = Certificate { alg: "base64+rsa-sha256".to_string(), ..cert.clone() };
    assert!(matches!(
        LicenseFile::verify_with_key(&rsa, &public_key),
        Err(Error::LicenseFileNotSupported(a)) if a == "base64+rsa-sha256"
    ));
    let forged = Certificate { enc: "b3RoZXI=".to_string(), ..cert };
    assert!(matches!(
        LicenseFile::verify_with_key(&forged, &public_key),
        Err(Error::LicenseFileNotGenuine(_))
    ));
}
