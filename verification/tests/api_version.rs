use keygen_rs::api_version::ApiContractVersion;
use keygen_rs::client::ClientOptions;
use keygen_rs::config::KeygenConfig;
use keygen_rs::keygen_client::KeygenClientBuilder;
use keygen_rs::service::{supports_api_contract, ServiceInfo};

#[test]
fn parses_supported_versions() {
    assert_eq!("1.7".parse(), Ok(ApiContractVersion::V1_7));
    assert_eq!("1.8".parse(), Ok(ApiContractVersion::V1_8));
}

#[test]
fn rejects_legacy_future_and_prefixed_versions() {
    for value in ["1.6", "1.9", "2.0", "v1.8", "1.8.0"] {
        assert!(value.parse::<ApiContractVersion>().is_err());
    }
}

#[test]
fn resolves_observed_contracts_to_the_latest_supported_version() {
    assert_eq!(
        ApiContractVersion::resolve_observed("1.7"),
        Ok(ApiContractVersion::V1_7)
    );
    assert_eq!(
        ApiContractVersion::resolve_observed("1.8"),
        Ok(ApiContractVersion::V1_8)
    );
    assert_eq!(
        ApiContractVersion::resolve_observed("1.9"),
        Ok(ApiContractVersion::CURRENT)
    );
}

#[test]
fn rejects_observed_contracts_outside_the_supported_major_range() {
    for value in ["1.6", "2.0", "v1.8", "1.8.0", "unknown"] {
        assert!(ApiContractVersion::resolve_observed(value).is_err());
    }
}

#[test]
fn observed_contracts_accept_plus_signs_and_large_minors() {
    assert_eq!(
        ApiContractVersion::resolve_observed("+1.+10"),
        Ok(ApiContractVersion::CURRENT)
    );
    assert_eq!(
        ApiContractVersion::resolve_observed("1.65535"),
        Ok(ApiContractVersion::CURRENT)
    );
    assert!(ApiContractVersion::resolve_observed("1.65536").is_err());
    assert!(ApiContractVersion::resolve_observed("1.").is_err());
}

#[test]
fn parse_errors_carry_the_rejected_text() {
    let error = "v1.8".parse::<ApiContractVersion>().unwrap_err();
    assert_eq!(error.value(), "v1.8");
    assert_eq!(
        error.message(),
        "unsupported Keygen API version 'v1.8'; supported versions are 1.7 and 1.8"
    );
}

#[test]
fn header_text_round_trips() {
    for version in [ApiContractVersion::V1_7, ApiContractVersion::V1_8] {
        assert_eq!(ApiContractVersion::parse_exact(version.as_str()), Ok(version));
        assert_eq!(ApiContractVersion::resolve_observed(version.as_str()), Ok(version));
    }
    assert_eq!(ApiContractVersion::default(), ApiContractVersion::V1_8);
    assert!(ApiContractVersion::V1_8.is_at_least(ApiContractVersion::V1_7));
    assert!(!ApiContractVersion::V1_7.is_at_least(ApiContractVersion::V1_8));
}

fn service_info(api_version: Option<&str>) -> ServiceInfo {
    ServiceInfo {
        timestamp: None,
        api_version: api_version.map(|v| v.to_string()),
        message: None,
        headers: Vec::new(),
    }
}

#[test]
fn test_supports_api_contract() {
    let current_service = service_info(Some("1.8"));

    assert!(supports_api_contract(
        &current_service,
        ApiContractVersion::V1_7
    ));
    assert!(supports_api_contract(
        &current_service,
        ApiContractVersion::V1_8
    ));

    let future_minor_service = ServiceInfo {
        api_version: Some("1.9".to_string()),
        ..current_service
    };
    assert!(supports_api_contract(
        &future_minor_service,
        ApiContractVersion::V1_8
    ));
}

#[test]
fn services_without_a_usable_contract_support_nothing() {
    for reported in [None, Some("2.0"), Some("1.6"), Some("garbage")] {
        let info = service_info(reported);
        assert!(!supports_api_contract(&info, ApiContractVersion::V1_7));
        assert!(!supports_api_contract(&info, ApiContractVersion::V1_8));
    }
    let older = service_info(Some("1.7"));
    assert!(supports_api_contract(&older, ApiContractVersion::V1_7));
    assert!(!supports_api_contract(&older, ApiContractVersion::V1_8));
}

#[test]
fn client_defaults_to_the_current_api_contract() {
    let config = KeygenClientBuilder::new().into_config();
    let options = ClientOptions::from(config);

    assert_eq!(options.api_version, ApiContractVersion::CURRENT);
}

#[test]
fn builder_sets_only_the_fields_it_names() {
    let config = KeygenClientBuilder::new()
        .account("account-1".to_string())
        .api_url("https://example.test".to_string())
        .api_contract_version(ApiContractVersion::V1_7)
        .environment("sandbox".to_string())
        .token("secret-token".to_string())
        .max_clock_drift(9)
        .verify_keygen_signature(false)
        .into_config();
    let defaults = KeygenConfig::default();

    assert_eq!(config.account, "account-1");
    assert_eq!(config.api_url, "https://example.test");
    assert_eq!(config.api_version, ApiContractVersion::V1_7);
    assert_eq!(config.environment.as_deref(), Some("sandbox"));
    assert_eq!(config.token.as_deref(), Some("secret-token"));
    assert_eq!(config.max_clock_drift, Some(9));
    assert_eq!(config.verify_keygen_signature, Some(false));
    assert_eq!(config.api_prefix, defaults.api_prefix);
    assert_eq!(config.product, defaults.product);
    assert!(config.license_key.is_none());
    assert!(config.public_key.is_none());
}
