use std::collections::HashMap;

use keygen_rs::attributes::{AttributeValue, Relationship};
use keygen_rs::certificate::Timestamp;
use keygen_rs::errors::Error;
use keygen_rs::license::{
    validated_license, LicenseCreateRequest, LicenseTokenCreateRequest, LicenseUpdateRequest,
    PaginationOptions, UpdateField,
};

fn get<'a>(attrs: &'a [(String, AttributeValue)], name: &str) -> Option<&'a AttributeValue> {
    attrs.iter().find(|(n, _)| n == name).map(|(_, v)| v)
}

#[test]
fn test_license_update_request_builder() {
    let mut metadata = HashMap::new();
    metadata.insert("tier".to_string(), serde_json::Value::String("premium".to_string()));

    let request = LicenseUpdateRequest::new()
        .with_name("Test License".to_string())
        .with_max_machines(10)
        .with_max_memory(8_589_934_592)
        .clear_max_disk()
        .with_protected(true)
        .with_metadata(metadata.clone());

    assert_eq!(request.name, UpdateField::SetTo("Test License".to_string()));
    assert!(matches!(request.max_machines, UpdateField::SetTo(10)));
    assert!(request.protected == Some(true));
    assert_eq!(request.metadata, Some(metadata));

    let request_with_clear = LicenseUpdateRequest::new()
        .with_max_machines(5)
        .clear_max_machines();
    assert!(matches!(request_with_clear.max_machines, UpdateField::Clear));

    let attributes = request.attributes().unwrap();
    assert_eq!(
        get(&attributes, "name"),
        Some(&AttributeValue::Text("Test License".to_string()))
    );
    assert_eq!(get(&attributes, "maxMachines"), Some(&AttributeValue::Integer(10)));
    assert_eq!(get(&attributes, "protected"), Some(&AttributeValue::Flag(true)));
    assert_eq!(
        get(&attributes, "maxMemory"),
        Some(&AttributeValue::Integer(8_589_934_592))
    );
    assert_eq!(get(&attributes, "maxDisk"), Some(&AttributeValue::Null));
}

#[test]
fn test_license_create_supports_memory_and_disk_limits() {
    let attributes = LicenseCreateRequest::new("policy-1".to_string())
        .with_max_memory(8_589_934_592)
        .with_max_disk(53_687_091_200)
        .attributes()
        .unwrap();

    assert_eq!(
        get(&attributes, "maxMemory"),
        Some(&AttributeValue::Integer(8_589_934_592))
    );
    assert_eq!(
        get(&attributes, "maxDisk"),
        Some(&AttributeValue::Integer(53_687_091_200))
    );
}

#[test]
fn license_create_body_sends_set_attributes_in_order_and_its_relationships() {
    let request = LicenseCreateRequest::new("policy-1".to_string())
        .with_name("Pro".to_string())
        .with_expiry(Timestamp { secs: 1_704_067_200, nanos: 0 })
        .with_max_machines(3)
        .with_suspended(false)
        .with_permissions(vec!["license.read".to_string()])
        .with_group_id("group-7".to_string());
    let attributes = request.attributes().unwrap();
    assert_eq!(
        attributes,
        vec![
            ("name".to_string(), AttributeValue::Text("Pro".to_string())),
            (
                "expiry".to_string(),
                AttributeValue::Text("2024-01-01T00:00:00Z".to_string())
            ),
            ("maxMachines".to_string(), AttributeValue::Integer(3)),
            ("suspended".to_string(), AttributeValue::Flag(false)),
            (
                "permissions".to_string(),
                AttributeValue::Texts(vec!["license.read".to_string()])
            ),
        ]
    );
    assert_eq!(
        request.relationships(),
        vec![
            Relationship {
                name: "policy".to_string(),
                kind: "policies".to_string(),
                id: "policy-1".to_string()
            },
            Relationship {
                name: "group".to_string(),
                kind: "groups".to_string(),
                id: "group-7".to_string()
            },
        ]
    );
}

#[test]
fn license_create_minimal_sends_only_the_policy() {
    let request = LicenseCreateRequest::new("policy-1".to_string());
    assert!(request.attributes().unwrap().is_empty());
    assert_eq!(request.relationships().len(), 1);
}

#[test]
fn expiry_with_fraction_is_written_with_its_digits() {
    let request = LicenseCreateRequest::new("p".to_string())
        .with_expiry(Timestamp { secs: 0, nanos: 500_000_000 });
    assert_eq!(
        request.attributes().unwrap(),
        vec![(
            "expiry".to_string(),
            AttributeValue::Text("1970-01-01T00:00:00.500Z".to_string())
        )]
    );
}

#[test]
fn expiry_out_of_range_gives_no_body() {
    let request = LicenseCreateRequest::new("p".to_string())
        .with_expiry(Timestamp { secs: i64::MAX, nanos: 0 });
    assert!(request.attributes().is_none());
    let update = LicenseUpdateRequest::new().with_expiry(Timestamp { secs: i64::MAX, nanos: 0 });
    assert!(update.attributes().is_none());
}

#[test]
fn license_update_clears_and_keeps() {
    let request = LicenseUpdateRequest::new().clear_name().clear_expiry().with_max_uses(4);
    assert_eq!(
        request.attributes().unwrap(),
        vec![
            ("name".to_string(), AttributeValue::Null),
            ("expiry".to_string(), AttributeValue::Null),
            ("maxUses".to_string(), AttributeValue::Integer(4)),
        ]
    );
    assert!(LicenseUpdateRequest::new().attributes().unwrap().is_empty());
}

#[test]
fn license_token_request_sends_what_is_set() {
    let request = LicenseTokenCreateRequest {
        name: Some("ci".to_string()),
        max_activations: Some(2),
        ..Default::default()
    };
    assert_eq!(
        request.attributes(),
        vec![
            ("name".to_string(), AttributeValue::Text("ci".to_string())),
            ("maxActivations".to_string(), AttributeValue::Integer(2)),
        ]
    );
}

#[test]
fn update_field_apply_to_follows_the_update() {
    let attrs = UpdateField::SetTo(AttributeValue::Flag(true)).apply_to(Vec::new(), "a");
    let attrs = UpdateField::Clear.apply_to(attrs, "b");
    let attrs = UpdateField::<AttributeValue>::Keep.apply_to(attrs, "c");
    assert_eq!(
        attrs,
        vec![
            ("a".to_string(), AttributeValue::Flag(true)),
            ("b".to_string(), AttributeValue::Null),
        ]
    );
}

#[test]
fn license_related_listing_defaults_to_a_hundred() {
    let query = PaginationOptions::page_query(None, Some(100)).attributes();
    assert_eq!(query, vec![("limit".to_string(), AttributeValue::Integer(100))]);
    let options = PaginationOptions { limit: None, page_size: Some(15), page_cursor: None };
    assert_eq!(
        PaginationOptions::page_query(Some(&options), Some(100)).attributes(),
        vec![
            ("limit".to_string(), AttributeValue::Integer(100)),
            ("page[cursor]".to_string(), AttributeValue::Text(String::new())),
            ("page[size]".to_string(), AttributeValue::Integer(15)),
        ]
    );
}

#[test]
fn validation_answer_yields_the_license_only_when_valid() {
    assert_eq!(validated_license(true, Some(7), "VALID".to_string(), "ok".to_string()).unwrap(), 7);
    for (valid, license) in [(false, Some(7)), (true, None), (false, None)] {
        match validated_license(valid, license, "NOT_FOUND".to_string(), "gone".to_string()) {
            Err(Error::LicenseKeyInvalid { code, detail }) => {
                assert_eq!(code, "NOT_FOUND");
                assert_eq!(detail, "gone");
            }
            _ => panic!("expected LicenseKeyInvalid"),
        }
    }
}
