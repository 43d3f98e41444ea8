use keygen_rs::api_version::ApiContractVersion;
use keygen_rs::attributes::{AttributeValue, Relationship};
use keygen_rs::certificate::Timestamp;
use keygen_rs::config::KeygenConfig;
use keygen_rs::errors::Error;
use keygen_rs::headers::HeaderList;
use keygen_rs::release::{
    artifact_download, artifact_download_headers, artifact_download_segments,
    constraint_relationships, CreateReleaseRequest, ListReleasesOptions, ReleaseChannel,
    ReleaseStatus, ReleaseUpgradeRequest, UpdateReleaseRequest,
};
use keygen_rs::token::{ListTokensOptions, RegenerateTokenRequest, Token, TokenKind};

fn text(name: &str, value: &str) -> (String, AttributeValue) {
    (name.to_string(), AttributeValue::Text(value.to_string()))
}

#[test]
fn test_release_channel_serialization() {
    assert_eq!(ReleaseChannel::Stable.as_str(), "stable");
    assert_eq!(ReleaseChannel::Rc.as_str(), "rc");
    assert_eq!(ReleaseChannel::Beta.as_str(), "beta");
    assert_eq!(ReleaseChannel::Alpha.as_str(), "alpha");
    assert_eq!(ReleaseChannel::Dev.as_str(), "dev");
}

#[test]
fn test_release_status_serialization() {
    assert_eq!(ReleaseStatus::Draft.as_str(), "DRAFT");
    assert_eq!(ReleaseStatus::Published.as_str(), "PUBLISHED");
    assert_eq!(ReleaseStatus::Yanked.as_str(), "YANKED");
}

#[test]
fn test_list_releases_options_serialization() {
    let options = ListReleasesOptions {
        channel: Some(ReleaseChannel::Dev),
        limit: Some(20),
        ..Default::default()
    };
    let query = options.query();
    assert!(query.contains(&text("channel", "dev")));
    assert!(query.contains(&("limit".to_string(), AttributeValue::Integer(20))));
    assert!(!query.iter().any(|(n, _)| n.contains("page")));
    assert!(!query.iter().any(|(n, _)| n == "status"));
}

#[test]
fn release_bodies_send_what_is_set() {
    let request = CreateReleaseRequest {
        version: "1.2.0".to_string(),
        channel: ReleaseChannel::Beta,
        product_id: "prod".to_string(),
        name: None,
        description: Some("notes".to_string()),
        status: Some(ReleaseStatus::Published),
        tag: None,
        metadata: None,
    };
    assert_eq!(
        request.attributes(),
        vec![
            text("version", "1.2.0"),
            text("channel", "beta"),
            text("description", "notes"),
            text("status", "PUBLISHED"),
        ]
    );
    assert_eq!(
        request.relationships(),
        vec![Relationship {
            name: "product".to_string(),
            kind: "products".to_string(),
            id: "prod".to_string()
        }]
    );
    let update = UpdateReleaseRequest { tag: Some("latest".to_string()), ..Default::default() };
    assert_eq!(update.attributes(), vec![text("tag", "latest")]);
    let upgrade = ReleaseUpgradeRequest {
        constraint: Some("1.0".to_string()),
        channel: Some(ReleaseChannel::Stable),
        ..Default::default()
    };
    assert_eq!(upgrade.query(), vec![text("constraint", "1.0"), text("channel", "stable")]);
}

#[test]
fn constraints_link_one_entitlement_each() {
    let links = constraint_relationships(&["e1".to_string(), "e2".to_string()]);
    assert_eq!(links.len(), 2);
    assert_eq!(links[1].name, "entitlement");
    assert_eq!(links[1].kind, "entitlements");
    assert_eq!(links[1].id, "e2");
}

#[test]
fn artifact_download_is_planned_from_the_configuration() {
    let config = KeygenConfig {
        account: "acct".to_string(),
        token: Some("tok".to_string()),
        license_key: Some("key".to_string()),
        environment: Some("staging".to_string()),
        ..KeygenConfig::default()
    };
    assert_eq!(
        artifact_download_segments(&config, "rel", "app.zip"),
        vec!["v1", "accounts", "acct", "releases", "rel", "artifacts", "app.zip"]
    );
    let headers = artifact_download_headers(&config);
    assert_eq!(headers[2], ("keygen-version".to_string(), ApiContractVersion::default().as_str().to_string()));
    assert_eq!(headers[3], ("keygen-environment".to_string(), "staging".to_string()));
    assert_eq!(headers.last().unwrap(), &("authorization".to_string(), "Bearer tok".to_string()));
    let no_token = KeygenConfig { token: None, ..config };
    assert_eq!(
        artifact_download_headers(&no_token).last().unwrap(),
        &("authorization".to_string(), "License key".to_string())
    );
}

#[test]
fn artifact_download_reads_the_redirect() {
    let found = HeaderList {
        entries: vec![("location".to_string(), Some("https://cdn/x".to_string()))],
    };
    assert_eq!(artifact_download(found).unwrap().location, "https://cdn/x");
    let missing = HeaderList { entries: vec![] };
    match artifact_download(missing) {
        Err(Error::UnexpectedError(m)) => assert_eq!(m, "Missing redirect Location header"),
        _ => panic!("expected an error"),
    }
}

fn token(expiry: Option<&str>, permissions: Option<Vec<&str>>) -> Token {
    Token {
        id: "t".to_string(),
        kind: TokenKind::ProductToken,
        token: None,
        name: None,
        expiry: expiry.map(str::to_string),
        permissions: permissions.map(|p| p.into_iter().map(str::to_string).collect()),
        metadata: None,
        created: String::new(),
        updated: String::new(),
    }
}

#[test]
fn token_expiry_follows_the_clock() {
    let t = token(Some("2024-01-01T00:00:00Z"), None);
    assert!(t.is_expired_at(Timestamp { secs: 1_704_067_201, nanos: 0 }));
    assert!(!t.is_expired_at(Timestamp { secs: 1_704_067_200, nanos: 0 }));
    let offset = token(Some("2024-01-01T01:00:00+01:00"), None);
    assert!(!offset.is_expired_at(Timestamp { secs: 1_704_067_200, nanos: 0 }));
    assert!(offset.is_expired_at(Timestamp { secs: 1_704_067_200, nanos: 1 }));
    assert!(token(Some("2000-01-01T00:00:00Z"), None).is_expired());
    assert!(!token(Some("not a date"), None).is_expired());
    assert!(!token(None, None).is_expired());
}

#[test]
fn token_permissions_and_secret() {
    let t = token(None, Some(vec!["license.read", "machine.read"]));
    assert!(t.has_permission("machine.read"));
    assert!(!t.has_permission("machine.delete"));
    assert!(!token(None, None).has_permission("license.read"));
    assert_eq!(t.get_token(), None);
    let with_secret = Token { token: Some("secret".to_string()), ..t };
    assert_eq!(with_secret.get_token(), Some("secret"));
    assert_eq!(TokenKind::from_code("admin-token"), Some(TokenKind::AdminToken));
}

#[test]
fn token_regeneration_and_listing() {
    let request = RegenerateTokenRequest {
        name: None,
        expiry: Some("2030-01-01T00:00:00Z".to_string()),
        permissions: Some(vec!["*".to_string()]),
        metadata: None,
    };
    assert_eq!(
        request.attributes(),
        vec![
            text("expiry", "2030-01-01T00:00:00Z"),
            ("permissions".to_string(), AttributeValue::Texts(vec!["*".to_string()]))
        ]
    );
    assert!(ListTokensOptions::default().query().is_empty());
}
