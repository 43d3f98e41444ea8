use keygen_rs::attributes::AttributeValue;
use keygen_rs::config::KeygenConfig;
use keygen_rs::errors::Error;
use keygen_rs::license::{
    cursor_pagination_query, CheckoutTtl, DateWindowFilter, License, LicenseCheckoutOpts,
    LicenseFileAlgorithm, LicenseListOptions, LicenseStatus, LicenseValidationCode,
    LicenseValidationRequest, NumericFilter, SchemeCode, UpdateField,
};
use keygen_rs::license::license_list_query;

#[test]
fn test_license_checkout_opts_with_ttl() {
    let opts = LicenseCheckoutOpts::with_ttl(7200);

    assert_eq!(opts.ttl, UpdateField::SetTo(7200));
    assert!(opts.included.is_none());
}

#[test]
fn test_license_checkout_opts_with_include() {
    let include_vec = vec![
        "entitlements".to_string(),
        "machines".to_string(),
        "components".to_string(),
    ];
    let opts = LicenseCheckoutOpts::with_include(include_vec);

    assert!(opts.included.is_some());
    let includes = opts.included.unwrap();
    assert!(includes.contains(&"entitlements".to_string()));
    assert!(includes.contains(&"machines".to_string()));
    assert!(includes.contains(&"components".to_string()));
    assert_eq!(includes.len(), 3);
    assert_eq!(opts.ttl, UpdateField::Keep);
}

#[test]
fn test_license_checkout_opts_new() {
    let opts = LicenseCheckoutOpts::new();

    assert_eq!(opts.ttl, UpdateField::Keep);
    assert!(opts.included.is_none());
}

#[test]
fn test_checkout_query_supports_current_api_options() {
    let options = LicenseCheckoutOpts {
        ttl: UpdateField::Clear,
        included: Some(vec!["entitlements".into(), "product".into()]),
        encrypt: None,
        algorithm: Some(LicenseFileAlgorithm::Base64Ed25519),
    };

    let query = options.to_query().unwrap();
    assert_eq!(query.ttl, Some(CheckoutTtl::Null));
    assert_eq!(query.included.as_deref(), Some("entitlements,product"));
    assert_eq!(query.encrypt, None);
    assert_eq!(query.algorithm.map(|a| a.as_str()), Some("base64+ed25519"));

    let invalid = LicenseCheckoutOpts {
        encrypt: Some(true),
        algorithm: Some(LicenseFileAlgorithm::Aes256GcmEd25519),
        ..Default::default()
    };
    assert!(matches!(invalid.to_query(), Err(Error::UnexpectedError(_))));
}

#[test]
fn checkout_query_with_a_ttl_and_perpetual_files() {
    let query = LicenseCheckoutOpts::with_ttl(3600).with_encrypt(true).to_query().unwrap();
    assert_eq!(query.ttl, Some(CheckoutTtl::Seconds(3600)));
    assert_eq!(query.encrypt, Some(true));
    assert!(query.included.is_none());

    let perpetual = LicenseCheckoutOpts::perpetual().to_query().unwrap();
    assert_eq!(perpetual.ttl, Some(CheckoutTtl::Null));
    assert_eq!(LicenseCheckoutOpts::new().to_query().unwrap().ttl, None);
}

#[test]
fn test_verify() {
    let config = KeygenConfig::default();
    let mut license = License::from_id("test_license_id");

    license.scheme = Some(SchemeCode::Ed25519Sign);
    let result = license.verify(&config);
    assert!(matches!(result, Err(Error::PublicKeyMissing)));

    license.scheme = None;
    let result = license.verify(&config);
    assert!(matches!(result, Err(Error::LicenseNotSigned)));
}

#[test]
fn test_scheme_code_serialization() {
    assert_eq!(SchemeCode::Ed25519Sign.as_str(), "ED25519_SIGN");
    assert_eq!(SchemeCode::EcdsaP256Sign.as_str(), "ECDSA_P256_SIGN");
    assert_eq!(
        SchemeCode::Rsa2048Pkcs1PssSignV2.as_str(),
        "RSA_2048_PKCS1_PSS_SIGN_V2"
    );
    assert_eq!(SchemeCode::LegacyEncrypt.as_str(), "LEGACY_ENCRYPT");
}

#[test]
fn test_scheme_code_deserialization() {
    assert_eq!(SchemeCode::from_code("ED25519_SIGN"), Some(SchemeCode::Ed25519Sign));
    assert_eq!(SchemeCode::from_code("ECDSA_P256_SIGN"), Some(SchemeCode::EcdsaP256Sign));
    assert_eq!(
        SchemeCode::from_code("RSA_2048_PKCS1_PSS_SIGN_V2"),
        Some(SchemeCode::Rsa2048Pkcs1PssSignV2)
    );
    assert_eq!(SchemeCode::from_code("LEGACY_ENCRYPT"), Some(SchemeCode::LegacyEncrypt));
    assert_eq!(SchemeCode::from_code("ed25519_sign"), None);
}

#[test]
fn validation_meta_classifies_documented_codes_without_losing_raw_values() {
    assert_eq!(
        LicenseValidationCode::parse("FINGERPRINT_SCOPE_MISMATCH"),
        LicenseValidationCode::FingerprintScopeMismatch
    );
    assert_eq!(
        LicenseValidationCode::parse("FUTURE_VALIDATION_CODE"),
        LicenseValidationCode::Unknown
    );
}

#[test]
fn statuses_ignore_case_while_validation_codes_do_not() {
    assert_eq!(LicenseStatus::parse("active"), Some(LicenseStatus::Active));
    assert_eq!(LicenseStatus::parse("Suspended"), Some(LicenseStatus::Suspended));
    assert_eq!(LicenseStatus::parse("BANNED"), Some(LicenseStatus::Banned));
    assert_eq!(LicenseStatus::parse("retired"), None);
    assert_eq!(LicenseValidationCode::parse("VALID"), LicenseValidationCode::Valid);
    assert_eq!(LicenseValidationCode::parse("valid"), LicenseValidationCode::Unknown);
}

#[test]
fn algorithm_codes_round_trip() {
    for algorithm in [
        LicenseFileAlgorithm::Aes256GcmEd25519,
        LicenseFileAlgorithm::Aes256GcmEcdsaP256,
        LicenseFileAlgorithm::Aes256GcmRsaPssSha256,
        LicenseFileAlgorithm::Aes256GcmRsaSha256,
        LicenseFileAlgorithm::Base64Ed25519,
        LicenseFileAlgorithm::Base64EcdsaP256,
        LicenseFileAlgorithm::Base64RsaPssSha256,
        LicenseFileAlgorithm::Base64RsaSha256,
    ] {
        assert_eq!(LicenseFileAlgorithm::from_code(algorithm.as_str()), Some(algorithm));
        assert_eq!(algorithm.is_encrypted(), algorithm.as_str().starts_with("aes-256-gcm+"));
    }
    assert_eq!(LicenseFileAlgorithm::from_code("aes-128-gcm+ed25519"), None);
}

#[test]
fn validation_requests_scope_a_fingerprint() {
    let request = LicenseValidationRequest::for_fingerprint("fp-1".to_string());
    assert_eq!(request.nonce, None);
    assert_eq!(request.scope.fingerprint.as_deref(), Some("fp-1"));
    assert!(request.scope.product.is_none());
    assert!(request.scope.fingerprints.is_none());
}

#[test]
fn cursor_pagination_sends_a_cursor_once_paging_starts() {
    let query = cursor_pagination_query(None, Some(10), None, Some(25));
    assert_eq!(query.limit, Some(25));
    assert_eq!(query.page_size, Some(10));
    assert_eq!(query.page_cursor.as_deref(), Some(""));

    let query = cursor_pagination_query(Some(5), None, Some("cursor-2"), None);
    assert_eq!(query.limit, Some(5));
    assert_eq!(query.page_cursor.as_deref(), Some("cursor-2"));

    let query = cursor_pagination_query(None, None, None, None);
    assert_eq!(query.limit, None);
    assert_eq!(query.page_cursor, None);
}

fn text(name: &str, value: &str) -> (String, AttributeValue) {
    (name.to_string(), AttributeValue::Text(value.to_string()))
}

#[test]
fn license_list_query_carries_filters_and_windows() {
    let options = LicenseListOptions {
        limit: Some(25),
        page_size: Some(10),
        status: Some("ACTIVE".to_string()),
        assigned: Some(true),
        activations: Some(NumericFilter { gte: Some(1), lt: Some(5), ..Default::default() }),
        expires: Some(DateWindowFilter { within: Some("30d".to_string()), ..Default::default() }),
        ..Default::default()
    };
    assert_eq!(
        license_list_query(Some(&options)),
        vec![
            ("limit".to_string(), AttributeValue::Integer(25)),
            text("page[cursor]", ""),
            ("page[size]".to_string(), AttributeValue::Integer(10)),
            text("status", "ACTIVE"),
            ("assigned".to_string(), AttributeValue::Flag(true)),
            ("activations[gte]".to_string(), AttributeValue::Integer(1)),
            ("activations[lt]".to_string(), AttributeValue::Integer(5)),
            text("expires[in]", "30d"),
        ]
    );
    assert!(license_list_query(None).is_empty());
}

#[test]
fn resource_page_exposes_typed_links_and_next_cursor() {
    assert_eq!(
        keygen_rs::license::next_cursor(Some("/v1/licenses?page[size]=1&page[cursor]=license-1"))
            .as_deref(),
        Some("license-1")
    );
}

#[test]
fn page_links_support_null_next_and_absolute_urls() {
    assert_eq!(keygen_rs::license::next_cursor(None), None);
    assert_eq!(
        keygen_rs::license::next_cursor(Some(
            "https://api.keygen.sh/v1/licenses?page%5Bcursor%5D=license-2"
        ))
        .as_deref(),
        Some("license-2")
    );
    assert_eq!(keygen_rs::license::next_cursor(Some("/v1/licenses")), None);
    assert_eq!(keygen_rs::license::next_cursor(Some("/v1/licenses?page[size]=2")), None);
}
