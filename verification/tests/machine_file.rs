use keygen_rs::attributes::AttributeValue;
use keygen_rs::certificate::{Certificate, Timestamp};
use keygen_rs::config::KeygenConfig;
use keygen_rs::errors::Error;
use keygen_rs::machine::MachineCheckoutOpts;
use keygen_rs::machine_file::MachineFile;

#[test]
fn test_machine_checkout_opts_with_ttl() {
    let opts = MachineCheckoutOpts::with_ttl(7200);

    assert_eq!(opts.ttl, Some(7200));
    assert!(opts.included.is_none());
}

#[test]
fn test_machine_checkout_opts_with_include() {
    let include_vec = vec![
        "license.entitlements".to_string(),
        "components".to_string(),
    ];
    let opts = MachineCheckoutOpts::with_include(include_vec);

    assert!(opts.included.is_some());
    let includes = opts.included.unwrap();
    assert!(includes.contains(&"license.entitlements".to_string()));
    assert!(includes.contains(&"components".to_string()));
    assert_eq!(includes.len(), 2);
    assert!(opts.ttl.is_none());
}

#[test]
fn test_machine_checkout_opts_new() {
    let opts = MachineCheckoutOpts::new();

    assert!(opts.ttl.is_none());
    assert!(opts.included.is_none());
}

#[test]
fn machine_checkout_query_is_encrypted_and_includes_entitlements_by_default() {
    assert_eq!(
        MachineCheckoutOpts::new().to_query(),
        vec![
            ("encrypt".to_string(), AttributeValue::Integer(1)),
            ("include".to_string(), AttributeValue::Text("license.entitlements".to_string())),
        ]
    );
    let opts = MachineCheckoutOpts {
        ttl: Some(600),
        included: Some(vec!["license".to_string(), "components".to_string()]),
    };
    assert_eq!(
        opts.to_query(),
        vec![
            ("encrypt".to_string(), AttributeValue::Integer(1)),
            ("include".to_string(), AttributeValue::Text("license,components".to_string())),
            ("ttl".to_string(), AttributeValue::Integer(600)),
        ]
    );
}

fn machine_file(expiry_secs: i64) -> MachineFile {
    MachineFile {
        id: "file-1".to_string(),
        certificate: "-----BEGIN MACHINE FILE-----\nabc\n-----END MACHINE FILE-----".to_string(),
        issued: Timestamp { secs: 0, nanos: 0 },
        expiry: Timestamp { secs: expiry_secs, nanos: 0 },
        ttl: 3600,
    }
}

#[test]
fn machine_files_expire_after_their_expiry() {
    let file = machine_file(100);
    assert!(file.validate_ttl_at(Timestamp { secs: 100, nanos: 0 }).is_ok());
    assert!(matches!(
        file.validate_ttl_at(Timestamp { secs: 100, nanos: 1 }),
        Err(Error::MachineFileExpired)
    ));
    assert!(matches!(machine_file(0).validate_ttl(), Err(Error::MachineFileExpired)));
}

#[test]
fn expired_machine_files_are_refused_before_their_signature() {
    let cert = Certificate {
        enc: "x".to_string(),
        sig: "y".to_string(),
        alg: "aes-256-gcm+ed25519".to_string(),
    };
    let config = KeygenConfig::default();
    let file = machine_file(100);
    assert!(matches!(
        file.verify_at(&cert, &config, Timestamp { secs: 200, nanos: 0 }),
        Err(Error::MachineFileExpired)
    ));
    assert!(matches!(
        file.verify_at(&cert, &config, Timestamp { secs: 50, nanos: 0 }),
        Err(Error::PublicKeyMissing)
    ));
}

#[test]
fn machine_file_algorithms_follow_the_machine_rules() {
    for alg in ["aes-256-gcm+rsa-pss-sha256", "aes-256-gcm+rsa-sha256"] {
        let cert = Certificate { enc: String::new(), sig: String::new(), alg: alg.to_string() };
        assert!(matches!(
            MachineFile::decrypt_dataset(&cert, "key"),
            Err(Error::LicenseFileNotSupported(a)) if a == alg
        ));
    }
    for alg in ["base64+ed25519", "aes-256-gcm+ecdsa-p256", "unknown"] {
        let cert = Certificate { enc: String::new(), sig: String::new(), alg: alg.to_string() };
        assert!(matches!(
            MachineFile::decrypt_dataset(&cert, "key"),
            Err(Error::LicenseFileNotEncrypted)
        ));
    }
    let cert = Certificate {
        enc: "not-three-parts".to_string(),
        sig: String::new(),
        alg: "aes-256-gcm+ed25519".to_string(),
    };
    assert!(matches!(
        MachineFile::decrypt_dataset(&cert, "key"),
        Err(Error::DecryptionError(m)) if m == "Invalid encrypted data format"
    ));
}

#[test]
fn machine_file_armor_is_required() {
    let mut file = machine_file(100);
    file.certificate = "no armor".to_string();
    assert!(matches!(
        file.certificate_json(),
        Err(Error::MachineFileInvalid(m)) if m == "Invalid machine file format"
    ));
    file.certificate = "  -----BEGIN MACHINE FILE-----\neyJh\nIjoxfQ==\n-----END MACHINE FILE-----\n".to_string();
    assert_eq!(file.certificate_json().unwrap(), b"{\"a\":1}".to_vec());
}
