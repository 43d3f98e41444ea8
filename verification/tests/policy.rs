use keygen_rs::attributes::AttributeValue;
use keygen_rs::policy::{
    CreatePolicyRequest, ExpirationStrategy, LeasingStrategy, MatchingStrategy, OverageStrategy,
    Scheme, UpdatePolicyRequest,
};

#[test]
fn test_scheme_serialization() {
    assert_eq!(Scheme::Ed25519Sign.as_str(), "ED25519_SIGN");
    assert_eq!(Scheme::Rsa2048Pkcs1PssSignV2.as_str(), "RSA_2048_PKCS1_PSS_SIGN_V2");
    assert_eq!(Scheme::Rsa2048JwtRs256.as_str(), "RSA_2048_JWT_RS256");
    assert_eq!(Scheme::LegacyEncrypt.as_str(), "LEGACY_ENCRYPT");
}

#[test]
fn test_deprecated_schemes() {
    assert_eq!(Scheme::Rsa2048Pkcs1PssSign.as_str(), "RSA_2048_PKCS1_PSS_SIGN");
    assert_eq!(Scheme::Rsa2048Pkcs1Sign.as_str(), "RSA_2048_PKCS1_SIGN");
}

#[test]
fn strategy_codes_are_screaming_snake_case() {
    assert_eq!(ExpirationStrategy::RestrictAccess.as_str(), "RESTRICT_ACCESS");
    assert_eq!(OverageStrategy::Allow125xOverage.as_str(), "ALLOW125X_OVERAGE");
    assert_eq!(OverageStrategy::NoOverage.as_str(), "NO_OVERAGE");
    assert_eq!(MatchingStrategy::MatchMost.as_str(), "MATCH_MOST");
    assert_eq!(LeasingStrategy::PerLicense.as_str(), "PER_LICENSE");
}

#[test]
fn create_policy_sends_the_name_and_every_set_attribute() {
    let request = CreatePolicyRequest {
        name: "Pro".to_string(),
        duration: Some(86400),
        floating: Some(true),
        machine_matching_strategy: Some(MatchingStrategy::MatchAll),
        max_machines: Some(3),
        scheme: Some(Scheme::Ed25519Sign),
        product_id: "product-1".to_string(),
        ..Default::default()
    };
    assert_eq!(
        request.attributes(),
        vec![
            ("name".to_string(), AttributeValue::Text("Pro".to_string())),
            ("duration".to_string(), AttributeValue::Integer(86400)),
            ("floating".to_string(), AttributeValue::Flag(true)),
            ("machineMatchingStrategy".to_string(), AttributeValue::Text("MATCH_ALL".to_string())),
            ("maxMachines".to_string(), AttributeValue::Integer(3)),
            ("scheme".to_string(), AttributeValue::Text("ED25519_SIGN".to_string())),
        ]
    );
    let bare = CreatePolicyRequest { name: "Basic".to_string(), ..Default::default() };
    assert_eq!(
        bare.attributes(),
        vec![("name".to_string(), AttributeValue::Text("Basic".to_string()))]
    );
}

#[test]
fn update_policy_leaves_out_the_fields_it_does_not_send() {
    let request = UpdatePolicyRequest {
        name: Some("Renamed".to_string()),
        heartbeat_basis: Some("FROM_CREATION".to_string()),
        machine_matching_strategy: Some(MatchingStrategy::MatchAny),
        expiration_strategy: Some(ExpirationStrategy::AllowAccess),
        protected: Some(false),
        ..Default::default()
    };
    assert_eq!(
        request.attributes(),
        vec![
            ("name".to_string(), AttributeValue::Text("Renamed".to_string())),
            ("expirationStrategy".to_string(), AttributeValue::Text("ALLOW_ACCESS".to_string())),
            ("protected".to_string(), AttributeValue::Flag(false)),
        ]
    );
    assert!(UpdatePolicyRequest::default().attributes().is_empty());
}

#[test]
fn test_scheme_deserialization() {
    assert_eq!(Scheme::from_code("ED25519_SIGN"), Some(Scheme::Ed25519Sign));
    assert_eq!(
        Scheme::from_code("RSA_2048_PKCS1_PSS_SIGN_V2"),
        Some(Scheme::Rsa2048Pkcs1PssSignV2)
    );
    assert_eq!(Scheme::from_code("LEGACY_ENCRYPT"), Some(Scheme::LegacyEncrypt));
}

#[test]
fn policy_listing_and_product_link_are_planned() {
    let options = keygen_rs::policy::ListPoliciesOptions {
        limit: Some(5),
        page_size: None,
        page_number: Some(2),
        product: Some("prod".to_string()),
    };
    assert_eq!(
        options.query(),
        vec![
            ("limit".to_string(), AttributeValue::Integer(5)),
            ("page[number]".to_string(), AttributeValue::Integer(2)),
            ("product".to_string(), AttributeValue::Text("prod".to_string())),
        ]
    );
    let request = CreatePolicyRequest { product_id: "prod".to_string(), ..Default::default() };
    let rels = request.relationships();
    assert_eq!(rels.len(), 1);
    assert_eq!((rels[0].name.as_str(), rels[0].kind.as_str(), rels[0].id.as_str()), ("product", "products", "prod"));
}
