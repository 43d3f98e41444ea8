use aes_gcm::aead::Aead;
use aes_gcm::{Aes256Gcm, KeyInit, Nonce};
use base64::engine::general_purpose;
use base64::Engine;
use keygen_rs::certificate::{CertificateFileMeta, Certificate, Timestamp};
use keygen_rs::decryptor::Decryptor;
use keygen_rs::errors::Error;
use keygen_rs::license::LicenseFileAlgorithm;
use keygen_rs::license_file::LicenseFile;
use sha2::{Digest, Sha256};

const DATASET: &str = r#"{"meta":{"issued":"2026-01-01T00:00:00Z","expiry":"2026-01-01T00:00:00Z","ttl":0},"data":{"type":"licenses","id":"license-1","attributes":{"key":"TEST-LICENSE-KEY"},"relationships":{}}}"#;

fn certificate_json(enc: &str, alg: &str) -> String {
    format!(r#"{{"enc":"{enc}","sig":"","alg":"{alg}"}}"#)
}

fn license_file(enc: &str, alg: &str) -> LicenseFile {
    let encoded_certificate = general_purpose::STANDARD.encode(certificate_json(enc, alg));
    LicenseFile {
        id: "file-1".to_string(),
        certificate: format!(
            "-----BEGIN LICENSE FILE-----\n{encoded_certificate}\n-----END LICENSE FILE-----"
        ),
        issued: Timestamp { secs: 1767225600, nanos: 0 },
        expiry: Timestamp { secs: 1767225600, nanos: 0 },
        ttl: 0,
    }
}

/// Reads the certificate JSON the way a caller does.
fn read_certificate(file: &LicenseFile) -> Certificate {
    let bytes = file.certificate_json().unwrap();
    let value: serde_json::Value = serde_json::from_slice(&bytes).unwrap();
    Certificate {
        enc: value["enc"].as_str().unwrap().to_string(),
        sig: value["sig"].as_str().unwrap().to_string(),
        alg: value["alg"].as_str().unwrap().to_string(),
    }
}

#[test]
fn decodes_base64_license_files_and_preserves_all_included_resources() {
    let encoded_dataset = general_purpose::STANDARD.encode(DATASET);
    for algorithm in [
        "base64+ed25519",
        "base64+ecdsa-p256",
        "base64+rsa-pss-sha256",
        "base64+rsa-sha256",
    ] {
        let file = license_file(&encoded_dataset, algorithm);
        let cert = read_certificate(&file);

        assert_eq!(
            LicenseFile::algorithm(&cert).unwrap(),
            LicenseFileAlgorithm::from_code(algorithm).unwrap()
        );
        let decoded = LicenseFile::decode_dataset(&cert).unwrap();
        let dataset: serde_json::Value = serde_json::from_slice(&decoded).unwrap();
        assert_eq!(dataset["data"]["id"], "license-1");
    }
}

#[test]
fn rejects_an_unexpected_license_file_algorithm_before_verification() {
    let file = license_file("dataset", "base64+ed25519");
    let cert = read_certificate(&file);

    assert!(matches!(
        LicenseFile::verify_with_key_and_algorithm(&cert, "", LicenseFileAlgorithm::Base64EcdsaP256),
        Err(Error::LicenseFileAlgorithmMismatch { expected, actual })
            if expected == "base64+ecdsa-p256" && actual == "base64+ed25519"
    ));
    assert!(matches!(
        LicenseFile::verify_with_key_and_algorithm(&cert, "", LicenseFileAlgorithm::Base64Ed25519),
        Err(Error::PublicKeyMissing)
    ));
}

fn encrypted_dataset(secret: &str, plaintext: &str) -> String {
    let cipher = Aes256Gcm::new_from_slice(&Sha256::digest(secret.as_bytes())).unwrap();
    let iv = *b"012345678901";
    let encrypted = cipher
        .encrypt(Nonce::from_slice(&iv), plaintext.as_bytes())
        .unwrap();
    let (ciphertext, tag) = encrypted.split_at(encrypted.len() - 16);
    format!(
        "{}.{}.{}",
        general_purpose::STANDARD.encode(ciphertext),
        general_purpose::STANDARD.encode(iv),
        general_purpose::STANDARD.encode(tag)
    )
}

#[test]
fn decrypts_every_aes_license_file_algorithm() {
    let secret = "checkout-secret";
    let encrypted = encrypted_dataset(secret, DATASET);

    for algorithm in [
        "aes-256-gcm+ed25519",
        "aes-256-gcm+ecdsa-p256",
        "aes-256-gcm+rsa-pss-sha256",
        "aes-256-gcm+rsa-sha256",
    ] {
        let file = license_file(&encrypted, algorithm);
        let cert = read_certificate(&file);
        let plaintext = LicenseFile::decrypt_dataset(&cert, secret).unwrap();
        let dataset: serde_json::Value = serde_json::from_slice(&plaintext).unwrap();
        assert_eq!(dataset["data"]["id"], "license-1");
    }
}

#[test]
fn decryption_with_the_wrong_secret_fails() {
    let encrypted = encrypted_dataset("right", DATASET);
    let cert = Certificate {
        enc: encrypted,
        sig: String::new(),
        alg: "aes-256-gcm+ed25519".to_string(),
    };
    assert!(matches!(
        LicenseFile::decrypt_dataset(&cert, "wrong"),
        Err(Error::DecryptionError(m)) if m == "Decryption failed"
    ));
    assert_eq!(
        Decryptor::new("right".to_string()).decrypt_certificate(&cert).unwrap(),
        DATASET.as_bytes().to_vec()
    );
}

#[test]
fn algorithm_rules_for_decode_and_decrypt() {
    let unknown = Certificate { enc: String::new(), sig: String::new(), alg: "rot13".to_string() };
    assert!(matches!(LicenseFile::algorithm(&unknown), Err(Error::LicenseFileNotSupported(a)) if a == "rot13"));
    assert!(matches!(LicenseFile::decode_dataset(&unknown), Err(Error::LicenseFileNotSupported(_))));
    assert!(matches!(LicenseFile::decrypt_dataset(&unknown, "k"), Err(Error::LicenseFileNotSupported(_))));

    let plain = Certificate { enc: "e30=".to_string(), sig: String::new(), alg: "base64+ed25519".to_string() };
    assert!(matches!(LicenseFile::decrypt_dataset(&plain, "k"), Err(Error::LicenseFileNotEncrypted)));
    assert_eq!(LicenseFile::decode_dataset(&plain).unwrap(), b"{}".to_vec());

    let encrypted = Certificate { enc: "e30=".to_string(), sig: String::new(), alg: "aes-256-gcm+ed25519".to_string() };
    assert!(matches!(
        LicenseFile::decode_dataset(&encrypted),
        Err(Error::LicenseFileNotSupported(a)) if a == "aes-256-gcm+ed25519"
    ));

    let broken = Certificate { enc: "%%%".to_string(), sig: String::new(), alg: "base64+ed25519".to_string() };
    assert!(matches!(LicenseFile::decode_dataset(&broken), Err(Error::LicenseFileInvalid(_))));
}

#[test]
fn license_file_armor_is_required() {
    let mut file = license_file("e30=", "base64+ed25519");
    file.certificate = "-----BEGIN MACHINE FILE-----\nabc\n-----END MACHINE FILE-----".to_string();
    assert!(matches!(
        file.certificate_json(),
        Err(Error::LicenseFileInvalid(m)) if m == "Invalid license file format"
    ));
    file.certificate = "-----BEGIN LICENSE FILE-----\n%%%\n-----END LICENSE FILE-----".to_string();
    assert!(matches!(file.certificate_json(), Err(Error::LicenseFileInvalid(_))));
}

#[test]
fn datasets_expire_only_with_a_time_to_live() {
    let expiry = Timestamp { secs: 1000, nanos: 0 };
    let meta = CertificateFileMeta { issued: Timestamp { secs: 0, nanos: 0 }, expiry, ttl: 3600 };
    let later = Timestamp { secs: 1001, nanos: 0 };
    assert!(matches!(LicenseFile::dataset_validity_at(&meta, later), Err(Error::LicenseFileExpired)));
    assert!(LicenseFile::dataset_validity_at(&meta, expiry).is_ok());

    let perpetual = CertificateFileMeta { ttl: 0, ..meta };
    assert!(LicenseFile::dataset_validity_at(&perpetual, later).is_ok());
    assert!(LicenseFile::dataset_validity(&perpetual).is_ok());
}

#[test]
fn rejects_invalid_iv_and_tag_lengths_without_panicking() {
    let decryptor = Decryptor::new("secret".to_string());
    let invalid_iv = Certificate {
        enc: "Y2lwaGVydGV4dA==.c2hvcnQ=.dGFnMDEyMzQ1Njc4OTAxMg==".to_string(),
        sig: String::new(),
        alg: "aes-256-gcm+ed25519".to_string(),
    };
    let invalid_tag = Certificate {
        enc: "Y2lwaGVydGV4dA==.MDEyMzQ1Njc4OTAx.c2hvcnQ=".to_string(),
        sig: String::new(),
        alg: "aes-256-gcm+ed25519".to_string(),
    };

    assert!(matches!(
        decryptor.decrypt_certificate(&invalid_iv),
        Err(Error::DecryptionError(_))
    ));
    assert!(matches!(
        decryptor.decrypt_certificate(&invalid_tag),
        Err(Error::DecryptionError(_))
    ));
}

#[test]
fn decryption_errors_name_what_went_wrong() {
    let decryptor = Decryptor::new("secret".to_string());
    let message = |enc: &str| match decryptor.decrypt_certificate(&Certificate {
        enc: enc.to_string(),
        sig: String::new(),
        alg: String::new(),
    }) {
        Err(Error::DecryptionError(m)) => m,
        other => panic!("unexpected {other:?}"),
    };
    assert_eq!(message("a.b"), "Invalid encrypted data format");
    assert_eq!(message("%.MDEyMzQ1Njc4OTAx.MDEyMzQ1Njc4OTAxMjM0NQ=="), "Failed to decode ciphertext");
    assert_eq!(message("Y2lwaGVydGV4dA==.%.MDEyMzQ1Njc4OTAxMjM0NQ=="), "Failed to decode IV");
    assert_eq!(message("Y2lwaGVydGV4dA==.MDEyMzQ1Njc4OTAx.%"), "Failed to decode tag");
    assert_eq!(
        message("Y2lwaGVydGV4dA==.c2hvcnQ=.dGFnMDEyMzQ1Njc4OTAxMg=="),
        "Invalid IV length: expected 12 bytes, got 5"
    );
    assert_eq!(
        message("Y2lwaGVydGV4dA==.MDEyMzQ1Njc4OTAx.c2hvcnQ="),
        "Invalid authentication tag length: expected 16 bytes, got 5"
    );
    assert_eq!(
        message("Y2lwaGVydGV4dA==.MDEyMzQ1Njc4OTAx.MDEyMzQ1Njc4OTAxMjM0NQ=="),
        "Decryption failed"
    );
}

#[test]
fn zeroized_decryptor_no_longer_holds_its_secret() {
    let encrypted = encrypted_dataset("right", DATASET);
    let cert = Certificate {
        enc: encrypted,
        sig: String::new(),
        alg: "aes-256-gcm+ed25519".to_string(),
    };
    let mut decryptor = Decryptor::new("right".to_string());
    assert!(decryptor.decrypt_certificate(&cert).is_ok());
    decryptor.zeroize();
    assert!(matches!(
        decryptor.decrypt_certificate(&cert),
        Err(Error::DecryptionError(m)) if m == "Decryption failed"
    ));
}
