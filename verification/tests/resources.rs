use std::collections::HashMap;

use keygen_rs::arch::ListArchesOptions;
use keygen_rs::artifact::{
    ArtifactStatus, CreateArtifactRequest, ListArtifactsOptions, UpdateArtifactRequest,
};
use keygen_rs::attributes::{AttributeValue, Relationship};
use keygen_rs::config::KeygenConfig;
use keygen_rs::component::{CreateComponentRequest, ListComponentsOptions, UpdateComponentRequest};
use keygen_rs::entitlement::{
    CreateEntitlementRequest, ListEntitlementsOptions, UpdateEntitlementRequest,
};
use keygen_rs::group::{CreateGroupRequest, ListGroupsOptions, UpdateGroupRequest};
use keygen_rs::machine::{
    monitor_step, MachineCreateRequest, MachineListFilters, MachineUpdateRequest, MonitorAction,
    MonitorEvent,
};
use keygen_rs::package::{CreatePackageRequest, ListPackagesOptions, PackageEngine};
use keygen_rs::policy::Scheme;
use keygen_rs::process::ProcessStatus;
use keygen_rs::product::{
    CreateProductRequest, DistributionStrategy, Permission, Platform, UpdateProductRequest,
};
use keygen_rs::user::{CreateUserRequest, ListUsersOptions, UserRole, UserStatus};
use keygen_rs::validate::ValidationCode;

fn text(name: &str, value: &str) -> (String, AttributeValue) {
    (name.to_string(), AttributeValue::Text(value.to_string()))
}

fn integer(name: &str, value: i64) -> (String, AttributeValue) {
    (name.to_string(), AttributeValue::Integer(value))
}

fn rel(name: &str, kind: &str, id: &str) -> Relationship {
    Relationship { name: name.to_string(), kind: kind.to_string(), id: id.to_string() }
}

#[test]
fn test_artifact_status_serialization() {
    assert_eq!(ArtifactStatus::Waiting.as_str(), "WAITING");
    assert_eq!(ArtifactStatus::Uploaded.as_str(), "UPLOADED");
    assert_eq!(ArtifactStatus::Failed.as_str(), "FAILED");
    assert_eq!(ArtifactStatus::Yanked.as_str(), "YANKED");
}

#[test]
fn artifact_bodies_send_what_is_set() {
    let request = CreateArtifactRequest {
        filename: "app-1.0.0.dmg".to_string(),
        release_id: "release-1".to_string(),
        filetype: Some("dmg".to_string()),
        filesize: Some(10_485_760),
        platform: Some("darwin".to_string()),
        arch: None,
        signature: None,
        checksum: Some("abc123".to_string()),
        metadata: None,
    };
    assert_eq!(
        request.attributes(),
        vec![
            text("filename", "app-1.0.0.dmg"),
            text("filetype", "dmg"),
            ("filesize".to_string(), AttributeValue::Unsigned(10_485_760)),
            text("platform", "darwin"),
            text("checksum", "abc123"),
        ]
    );
    assert_eq!(request.relationships(), vec![rel("release", "releases", "release-1")]);
    let update = UpdateArtifactRequest { arch: Some("arm64".to_string()), ..Default::default() };
    assert_eq!(update.attributes(), vec![text("arch", "arm64")]);
    let list = ListArtifactsOptions {
        limit: Some(5),
        status: Some(ArtifactStatus::Yanked),
        ..Default::default()
    };
    assert_eq!(list.query(), vec![integer("limit", 5), text("status", "YANKED")]);
    assert_eq!(ArtifactStatus::from_code("FAILED"), Some(ArtifactStatus::Failed));
    assert_eq!(ArtifactStatus::from_code("failed"), None);
}

#[test]
fn test_create_entitlement_request_serialization() {
    let mut metadata = HashMap::new();
    metadata.insert(
        "feature_level".to_string(),
        serde_json::Value::String("premium".to_string()),
    );
    let request = CreateEntitlementRequest {
        name: Some("Advanced Features".to_string()),
        code: "advanced".to_string(),
        metadata: Some(metadata),
    };
    let attributes = request.attributes();
    assert!(attributes.contains(&text("code", "advanced")));
    assert!(attributes.contains(&text("name", "Advanced Features")));
    assert!(request.metadata.is_some());
}

#[test]
fn test_list_entitlements_options_serialization() {
    let options = ListEntitlementsOptions {
        limit: Some(10),
        page_size: Some(5),
        page_number: Some(2),
    };
    let query = options.query();
    assert!(query.contains(&integer("limit", 10)));
    assert!(query.contains(&integer("page[size]", 5)));
    assert!(query.contains(&integer("page[number]", 2)));
}

#[test]
fn entitlement_update_sends_only_what_is_set() {
    let update = UpdateEntitlementRequest { name: None, code: Some("pro".to_string()), metadata: None };
    assert_eq!(update.attributes(), vec![text("code", "pro")]);
    assert!(ListEntitlementsOptions::default().query().is_empty());
}

#[test]
fn test_create_group_request_serialization() {
    let mut metadata = HashMap::new();
    metadata.insert(
        "department".to_string(),
        serde_json::Value::String("engineering".to_string()),
    );
    let request = CreateGroupRequest {
        name: "Engineering Team".to_string(),
        max_users: Some(25),
        max_licenses: Some(100),
        max_machines: Some(200),
        metadata: Some(metadata),
    };
    let attributes = request.attributes();
    assert!(attributes.contains(&text("name", "Engineering Team")));
    assert!(attributes.contains(&integer("maxUsers", 25)));
    assert!(attributes.contains(&integer("maxLicenses", 100)));
    assert!(attributes.contains(&integer("maxMachines", 200)));
    assert!(request.metadata.is_some());
}

#[test]
fn test_update_group_request_serialization() {
    let request = UpdateGroupRequest {
        name: Some("Updated Team Name".to_string()),
        max_users: Some(30),
        max_licenses: None,
        max_machines: Some(250),
        metadata: None,
    };
    let attributes = request.attributes();
    assert!(attributes.contains(&text("name", "Updated Team Name")));
    assert!(attributes.contains(&integer("maxUsers", 30)));
    assert!(attributes.contains(&integer("maxMachines", 250)));
    assert!(!attributes.iter().any(|(n, _)| n == "maxLicenses"));
    assert!(!attributes.iter().any(|(n, _)| n == "metadata"));
}

#[test]
fn test_list_groups_options_serialization() {
    let options = ListGroupsOptions { limit: Some(20), page_size: Some(10), page_number: Some(3) };
    let query = options.query();
    assert!(query.contains(&integer("limit", 20)));
    assert!(query.contains(&integer("page[size]", 10)));
    assert!(query.contains(&integer("page[number]", 3)));
}

#[test]
fn test_create_component_request_builder() {
    let mut metadata = HashMap::new();
    metadata.insert("version".to_string(), serde_json::Value::String("1.0.0".to_string()));

    let request = CreateComponentRequest::new(
        "test-fingerprint".to_string(),
        "Test Component".to_string(),
        "test-machine-id".to_string(),
    )
    .with_metadata(metadata.clone());

    assert_eq!(request.fingerprint, "test-fingerprint");
    assert_eq!(request.name, "Test Component");
    assert_eq!(request.machine_id, "test-machine-id");
    assert_eq!(request.metadata, Some(metadata));
    assert_eq!(
        request.attributes(),
        vec![text("fingerprint", "test-fingerprint"), text("name", "Test Component")]
    );
    assert_eq!(request.relationships(), vec![rel("machine", "machines", "test-machine-id")]);
}

#[test]
fn test_update_component_request_builder() {
    let mut metadata = HashMap::new();
    metadata.insert("version".to_string(), serde_json::Value::String("2.0.0".to_string()));

    let request = UpdateComponentRequest::new()
        .with_name("Updated Component".to_string())
        .with_metadata(metadata.clone());

    assert_eq!(request.name, Some("Updated Component".to_string()));
    assert_eq!(request.metadata, Some(metadata));
    assert_eq!(request.attributes(), vec![text("name", "Updated Component")]);
}

#[test]
fn component_listing_query_holds_pagination_and_filters() {
    let options = ListComponentsOptions::new()
        .with_limit(50)
        .with_pagination(2, 25)
        .with_machine("m".to_string());
    assert_eq!(
        options.query(),
        vec![integer("limit", 50), integer("page[size]", 25), integer("page[number]", 2), text("machine", "m")]
    );
}

#[test]
fn machine_bodies_and_listing_filters() {
    let request = MachineCreateRequest {
        fingerprint: "fp".to_string(),
        name: Some("box".to_string()),
        platform: None,
        hostname: None,
        ip: Some("10.0.0.1".to_string()),
        cores: Some(8),
        metadata: None,
        license_id: "lic".to_string(),
    };
    assert_eq!(
        request.attributes(),
        vec![text("fingerprint", "fp"), text("name", "box"), text("ip", "10.0.0.1"), integer("cores", 8)]
    );
    assert_eq!(request.relationships(), vec![rel("license", "licenses", "lic")]);
    let update = MachineUpdateRequest { hostname: Some("h".to_string()), ..Default::default() };
    assert_eq!(update.attributes(), vec![text("hostname", "h")]);
    let filters = MachineListFilters {
        license: None,
        user: Some("u".to_string()),
        platform: None,
        name: None,
        fingerprint: Some("fp".to_string()),
    };
    assert_eq!(filters.query(), vec![text("user", "u"), text("fingerprint", "fp")]);
}

#[test]
fn test_package_engine_serialization() {
    assert_eq!(PackageEngine::Pypi.as_str(), "pypi");
    assert_eq!(PackageEngine::Tauri.as_str(), "tauri");
    assert_eq!(PackageEngine::Npm.as_str(), "npm");
    assert_eq!(PackageEngine::Raw.as_str(), "raw");
}

#[test]
fn package_bodies_send_what_is_set() {
    let request = CreatePackageRequest {
        name: "App".to_string(),
        key: "app".to_string(),
        product_id: "prod".to_string(),
        engine: Some(PackageEngine::Tauri),
        metadata: None,
    };
    assert_eq!(
        request.attributes(),
        vec![text("name", "App"), text("key", "app"), text("engine", "tauri")]
    );
    assert_eq!(request.relationships(), vec![rel("product", "products", "prod")]);
    let list = ListPackagesOptions { engine: Some(PackageEngine::Oci), ..Default::default() };
    assert_eq!(list.query(), vec![text("engine", "oci")]);
}

#[test]
fn product_bodies_send_enumerations_by_code() {
    let request = CreateProductRequest {
        name: "App".to_string(),
        code: "app".to_string(),
        distribution_strategy: Some(DistributionStrategy::Licensed),
        url: None,
        platforms: Some(vec![Platform::MacOs, Platform::Ios, Platform::Linux]),
        permissions: Some(vec![Permission::LicenseValidate]),
        metadata: None,
    };
    assert_eq!(
        request.attributes(),
        vec![
            text("name", "App"),
            text("code", "app"),
            text("distributionStrategy", "LICENSED"),
            (
                "platforms".to_string(),
                AttributeValue::Texts(vec!["macOS".to_string(), "iOS".to_string(), "linux".to_string()])
            ),
            (
                "permissions".to_string(),
                AttributeValue::Texts(vec!["license.validate".to_string()])
            ),
        ]
    );
    let update = UpdateProductRequest {
        name: None,
        code: None,
        distribution_strategy: None,
        url: Some("https://example.com".to_string()),
        platforms: None,
        permissions: None,
        metadata: None,
    };
    assert_eq!(update.attributes(), vec![text("url", "https://example.com")]);
    assert_eq!(Platform::from_code("darwin"), Some(Platform::Darwin));
    assert_eq!(Permission::from_code("user.delete"), Some(Permission::UserDelete));
}

#[test]
fn user_bodies_and_listing() {
    let request = CreateUserRequest {
        email: "a@b.c".to_string(),
        first_name: Some("Ada".to_string()),
        last_name: None,
        role: Some(UserRole::SalesAgent),
        permissions: None,
        metadata: None,
    };
    assert_eq!(
        request.attributes(),
        vec![text("email", "a@b.c"), text("firstName", "Ada"), text("role", "sales-agent")]
    );
    let list = ListUsersOptions {
        status: Some(UserStatus::Banned),
        assigned: Some(true),
        ..Default::default()
    };
    assert_eq!(
        list.query(),
        vec![text("status", "BANNED"), ("assigned".to_string(), AttributeValue::Flag(true))]
    );
    assert_eq!(UserRole::from_code("read-only"), Some(UserRole::ReadOnly));
}

#[test]
fn arch_listing_query() {
    let options = ListArchesOptions { limit: None, page_size: Some(5), page_number: Some(1) };
    assert_eq!(options.query(), vec![integer("page[size]", 5), integer("page[number]", 1)]);
}

#[test]
fn plain_codes_read_back() {
    assert_eq!(ValidationCode::from_code("NotFound"), Some(ValidationCode::NotFound));
    assert_eq!(ProcessStatus::Dead.as_str(), "Dead");
    assert_eq!(Scheme::from_code("ED25519_SIGN"), Some(Scheme::Ed25519Sign));
}

#[test]
fn monitor_pings_until_cancelled() {
    assert_eq!(monitor_step(MonitorEvent::Started), MonitorAction::Ping);
    assert_eq!(
        monitor_step(MonitorEvent::IntervalElapsed { cancelled: false }),
        MonitorAction::Ping
    );
    assert_eq!(
        monitor_step(MonitorEvent::IntervalElapsed { cancelled: true }),
        MonitorAction::Stop
    );
}

#[test]
fn activation_sends_fingerprint_cores_host_and_platform() {
    let config = KeygenConfig::default();
    let attrs = keygen_rs::machine::activation_attributes(&config, "fp", u64::MAX, "host", "linux", "x86_64");
    assert_eq!(
        attrs,
        vec![
            text("fingerprint", "fp"),
            ("cores".to_string(), AttributeValue::Unsigned(u64::MAX)),
            text("hostname", "host"),
            text("platform", "linux/x86_64"),
        ]
    );
    let configured = KeygenConfig { platform: Some("custom".to_string()), ..KeygenConfig::default() };
    let attrs = keygen_rs::machine::activation_attributes(&configured, "fp", 4, "host", "linux", "x86_64");
    assert_eq!(attrs[3], text("platform", "custom"));
}
