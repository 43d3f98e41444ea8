use keygen_rs::component::ListComponentsOptions;
use keygen_rs::environment::{
    CreateEnvironmentRequest, CreateEnvironmentTokenRequest, IsolationStrategy,
    ListEnvironmentsOptions, UpdateEnvironmentRequest,
};
use keygen_rs::attributes::AttributeValue;

#[test]
fn test_list_components_options_builder() {
    let options = ListComponentsOptions::new()
        .with_limit(50)
        .with_pagination(2, 25)
        .with_machine("test-machine-id".to_string())
        .with_license("test-license-id".to_string())
        .with_owner("test-owner-id".to_string())
        .with_user("test-user-id".to_string())
        .with_product("test-product-id".to_string());

    assert_eq!(options.limit, Some(50));
    assert_eq!(options.page_number, Some(2));
    assert_eq!(options.page_size, Some(25));
    assert_eq!(options.machine, Some("test-machine-id".to_string()));
    assert_eq!(options.license, Some("test-license-id".to_string()));
    assert_eq!(options.owner, Some("test-owner-id".to_string()));
    assert_eq!(options.user, Some("test-user-id".to_string()));
    assert_eq!(options.product, Some("test-product-id".to_string()));
}

#[test]
fn test_isolation_strategy_default() {
    let default_strategy = IsolationStrategy::default();
    assert_eq!(default_strategy, IsolationStrategy::Isolated);
}

fn text(name: &str, value: &str) -> (String, AttributeValue) {
    (name.to_string(), AttributeValue::Text(value.to_string()))
}

#[test]
fn test_create_environment_request_serialization() {
    let request = CreateEnvironmentRequest {
        name: "Production".to_string(),
        code: "prod".to_string(),
        isolation_strategy: Some(IsolationStrategy::Shared),
    };

    let attributes = request.attributes();
    assert!(attributes.contains(&text("name", "Production")));
    assert!(attributes.contains(&text("code", "prod")));
    assert!(attributes.contains(&text("isolationStrategy", "SHARED")));
}

#[test]
fn test_create_environment_token_request_optional_fields() {
    let request = CreateEnvironmentTokenRequest {
        name: Some("Test Token".to_string()),
        expiry: None,
        permissions: Some(vec!["environment.read".to_string()]),
    };

    let attributes = CreateEnvironmentTokenRequest::attributes(Some(&request));
    assert!(attributes.contains(&text("name", "Test Token")));
    assert!(attributes.contains(&(
        "permissions".to_string(),
        AttributeValue::Texts(vec!["environment.read".to_string()])
    )));
    assert!(!attributes.iter().any(|(name, _)| name == "expiry"));
}

#[test]
fn environment_update_and_listing_send_only_what_is_set() {
    let update = UpdateEnvironmentRequest { name: None, code: Some("staging".to_string()) };
    assert_eq!(update.attributes(), vec![text("code", "staging")]);

    let options = ListEnvironmentsOptions { limit: Some(20), page_size: None, page_number: Some(3) };
    assert_eq!(
        ListEnvironmentsOptions::query(Some(&options)),
        vec![text("limit", "20"), text("page[number]", "3")]
    );
    assert!(ListEnvironmentsOptions::query(None).is_empty());
    assert!(CreateEnvironmentTokenRequest::attributes(None).is_empty());
}

#[test]
fn isolation_strategy_codes_read_back() {
    for strategy in [IsolationStrategy::Isolated, IsolationStrategy::Shared] {
        assert_eq!(IsolationStrategy::from_code(strategy.as_str()), Some(strategy));
    }
    assert_eq!(IsolationStrategy::from_code("SHARED"), Some(IsolationStrategy::Shared));
    assert_eq!(IsolationStrategy::from_code("shared"), None);
}
