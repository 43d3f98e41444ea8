use keygen_rs::attributes::AttributeValue;
use keygen_rs::certificate::Timestamp;
use keygen_rs::webhook::endpoint::{
    SignatureAlgorithm, WebhookEndpointCreateRequest, WebhookEndpointListOptions,
    WebhookEndpointUpdateRequest,
};
use keygen_rs::webhook::event::{WebhookEventListOptions, WebhookEventRecord, WebhookEventStatus};
use keygen_rs::webhook::event_types::WebhookEvent;

#[test]
fn test_webhook_event_serialization() {
    assert_eq!(WebhookEvent::LicenseCreated.as_str(), "license.created");
    assert_eq!(WebhookEvent::MachineHeartbeatPing.as_str(), "machine.heartbeat.ping");
    assert_eq!(WebhookEvent::All.as_str(), "*");
}

#[test]
fn test_signature_algorithm_serialization() {
    assert_eq!(SignatureAlgorithm::Ed25519.as_str(), "ED25519");
    assert_eq!(SignatureAlgorithm::Rsa2048PssSha256.as_str(), "RSA_2048_PSS_SHA256");
}

fn record(status: WebhookEventStatus) -> WebhookEventRecord {
    WebhookEventRecord {
        id: "1".to_string(),
        endpoint: "https://example.com".to_string(),
        payload: serde_json::Value::Object(serde_json::Map::new()),
        event: "test".to_string(),
        status,
        last_response_code: Some(200),
        last_response_body: None,
        created: Timestamp { secs: 0, nanos: 0 },
        updated: Timestamp { secs: 0, nanos: 0 },
        account_id: None,
    }
}

#[test]
fn test_webhook_event_status_checks() {
    let delivered_event = record(WebhookEventStatus::Delivered);

    assert!(delivered_event.is_delivered());
    assert!(!delivered_event.is_failed());
    assert!(!delivered_event.is_pending());

    let failed_event = record(WebhookEventStatus::Failed);

    assert!(!failed_event.is_delivered());
    assert!(failed_event.is_failed());
    assert!(!failed_event.is_pending());

    let delivering_event = record(WebhookEventStatus::Delivering);

    assert!(!delivering_event.is_delivered());
    assert!(!delivering_event.is_failed());
    assert!(delivering_event.is_pending());

    assert!(record(WebhookEventStatus::Failing).is_pending());
}

#[test]
fn endpoint_requests_send_the_given_attributes() {
    let create = WebhookEndpointCreateRequest::new("https://example.com/hook".to_string())
        .with_subscriptions(vec![WebhookEvent::LicenseCreated, WebhookEvent::All])
        .with_signature_algorithm(SignatureAlgorithm::Rsa2048Pkcs1Sha256)
        .with_environment_id("env-1".to_string());
    assert_eq!(create.environment_id.as_deref(), Some("env-1"));
    assert_eq!(
        create.attributes(),
        vec![
            ("url".to_string(), AttributeValue::Text("https://example.com/hook".to_string())),
            (
                "subscriptions".to_string(),
                AttributeValue::Texts(vec!["license.created".to_string(), "*".to_string()])
            ),
            (
                "signatureAlgorithm".to_string(),
                AttributeValue::Text("RSA_2048_PKCS1_SHA256".to_string())
            ),
        ]
    );

    let update = WebhookEndpointUpdateRequest::new().with_url("https://example.org".to_string());
    assert_eq!(
        update.attributes(),
        vec![("url".to_string(), AttributeValue::Text("https://example.org".to_string()))]
    );
    assert!(WebhookEndpointUpdateRequest::new().attributes().is_empty());
    assert_eq!(SignatureAlgorithm::default(), SignatureAlgorithm::Ed25519);
}

#[test]
fn webhook_listings_use_page_numbers() {
    let options = WebhookEndpointListOptions { limit: Some(10), page_number: None, page_size: Some(5) };
    assert_eq!(
        options.query(),
        vec![
            ("limit".to_string(), AttributeValue::Integer(10)),
            ("page[size]".to_string(), AttributeValue::Integer(5)),
        ]
    );
    let events = WebhookEventListOptions {
        limit: None,
        page_number: Some(2),
        page_size: None,
        event_type: Some("license.created".to_string()),
        status: Some(WebhookEventStatus::Failing),
    };
    assert_eq!(
        events.query(),
        vec![
            ("page[number]".to_string(), AttributeValue::Integer(2)),
            ("event".to_string(), AttributeValue::Text("license.created".to_string())),
            ("status".to_string(), AttributeValue::Text("FAILING".to_string())),
        ]
    );
}

#[test]
fn webhook_codes_read_back_in_either_spelling() {
    assert_eq!(SignatureAlgorithm::from_code("ED25519"), Some(SignatureAlgorithm::Ed25519));
    assert_eq!(
        SignatureAlgorithm::from_code("rsa_2048_pkcs1_sha256"),
        Some(SignatureAlgorithm::Rsa2048Pkcs1Sha256)
    );
    assert_eq!(SignatureAlgorithm::from_code("Ed25519"), None);
    assert_eq!(WebhookEventStatus::from_code("FAILING"), Some(WebhookEventStatus::Failing));
    assert_eq!(WebhookEventStatus::from_code("failing"), None);
}

#[test]
fn endpoint_environment_is_a_relationship() {
    let request = WebhookEndpointCreateRequest::new("https://h".to_string())
        .with_environment_id("env-1".to_string());
    let rels = request.relationships();
    assert_eq!(rels.len(), 1);
    assert_eq!(rels[0].name, "environment");
    assert_eq!(rels[0].kind, "environments");
    assert_eq!(rels[0].id, "env-1");
    assert!(WebhookEndpointCreateRequest::new("https://h".to_string()).relationships().is_empty());
}
