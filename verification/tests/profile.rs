use keygen_rs::errors::Error;
use keygen_rs::profile::{
    CurrentProfile, ProfileDocument, ProfileResource, ResourceIdentifier, TokenAttributes,
    TokenPermissionConstraint,
};

fn identifier(id: &str, resource_type: &str) -> ResourceIdentifier {
    ResourceIdentifier { id: id.to_string(), resource_type: resource_type.to_string() }
}

fn token(id: &str, bearer: &str, kind: &str, permissions: Option<Vec<&str>>) -> ProfileResource {
    ProfileResource {
        id: id.to_string(),
        resource_type: "tokens".to_string(),
        bearer: Some(identifier(bearer, "users")),
        attributes: Ok(TokenAttributes {
            kind: kind.to_string(),
            expiry: Some("2026-08-01T00:00:00.000Z".to_string()),
            permissions: permissions.map(|p| p.into_iter().map(String::from).collect()),
        }),
    }
}

fn profile_document(permissions: Option<Vec<&str>>) -> ProfileDocument {
    ProfileDocument {
        data: identifier("user-1", "users"),
        included: vec![
            ProfileResource {
                id: "unrelated-1".to_string(),
                resource_type: "products".to_string(),
                bearer: None,
                attributes: Err("missing field `kind`".to_string()),
            },
            token("token-for-another-user", "user-2", "user-token", Some(vec!["*"])),
            token("token-1", "user-1", "user-token", permissions),
        ],
    }
}

#[test]
fn current_profile_returns_bearer_and_matching_included_token() {
    let profile = CurrentProfile::from_document(profile_document(Some(vec![
        "license.read",
        "license.update",
    ])))
    .expect("profile should parse");

    assert_eq!(profile.bearer().id(), "user-1");
    assert_eq!(profile.bearer().resource_type(), "users");
    assert_eq!(profile.token().id(), "token-1");
    assert_eq!(profile.token().kind(), "user-token");
    assert_eq!(profile.token().expiry(), Some("2026-08-01T00:00:00.000Z"));
    assert_eq!(
        profile
            .token()
            .permissions()
            .expect("permissions should be present"),
        ["license.read", "license.update"]
    );
}

#[test]
fn current_token_exposes_constraint_not_effective_authorization() {
    let profile = CurrentProfile::from_document(profile_document(Some(vec!["license.read", "*"])))
        .expect("profile should parse");

    assert_eq!(
        profile.token().permission_constraint("license.read"),
        TokenPermissionConstraint::Explicit
    );
    assert_eq!(
        profile.token().permission_constraint("license.update"),
        TokenPermissionConstraint::Inherited
    );
}

#[test]
fn current_token_reports_permissions_omitted_by_an_explicit_set() {
    let profile = CurrentProfile::from_document(profile_document(Some(vec!["license.read"])))
        .expect("profile should parse");

    assert_eq!(
        profile.token().permission_constraint("license.update"),
        TokenPermissionConstraint::Excluded
    );
}

#[test]
fn current_profile_preserves_environment_token_kind() {
    let mut document = profile_document(Some(vec!["*"]));
    document.included[2] = token("token-1", "user-1", "environment-token", Some(vec!["*"]));

    let profile = CurrentProfile::from_document(document).expect("profile should parse");

    assert_eq!(profile.token().kind(), "environment-token");
}

#[test]
fn current_profile_preserves_future_token_kinds() {
    let mut document = profile_document(Some(vec!["*"]));
    document.included[2] = token("token-1", "user-1", "future-token", Some(vec!["*"]));

    let profile = CurrentProfile::from_document(document).expect("profile should parse");

    assert_eq!(profile.token().kind(), "future-token");
}

#[test]
fn current_token_with_an_empty_permission_set_excludes_every_permission() {
    let profile = CurrentProfile::from_document(profile_document(Some(vec![])))
        .expect("profile should parse");

    assert_eq!(profile.token().permissions(), Some(&[][..]));
    assert_eq!(
        profile.token().permission_constraint("license.read"),
        TokenPermissionConstraint::Excluded
    );
}

#[test]
fn current_profile_does_not_treat_missing_permissions_as_empty() {
    let profile = CurrentProfile::from_document(profile_document(None))
        .expect("profile without token permissions should parse");

    assert_eq!(profile.token().permissions(), None);
    assert_eq!(
        profile.token().permission_constraint("license.read"),
        TokenPermissionConstraint::Inherited
    );
}

#[test]
fn current_profile_rejects_a_missing_or_mismatched_current_token() {
    let mut document = profile_document(Some(vec!["license.read"]));
    document.included[2] = token("token-1", "user-2", "user-token", Some(vec!["license.read"]));

    let error = CurrentProfile::from_document(document)
        .expect_err("mismatched token should be rejected");

    assert!(matches!(error, Error::InvalidResponse(_)));
}

#[test]
fn current_profile_rejects_multiple_matching_current_tokens() {
    let mut document = profile_document(Some(vec!["license.read"]));
    document
        .included
        .push(token("token-1", "user-1", "user-token", Some(vec!["license.read"])));

    let error = CurrentProfile::from_document(document)
        .expect_err("ambiguous token should be rejected");

    assert!(matches!(
        error,
        Error::InvalidResponse(m) if m == "the /me response included multiple tokens for the current bearer"
    ));
}

#[test]
fn unreadable_token_attributes_are_reported() {
    let mut document = profile_document(None);
    document.included[2].attributes = Err("invalid type: null, expected a string".to_string());

    assert!(matches!(
        CurrentProfile::from_document(document),
        Err(Error::JsonError(m)) if m == "invalid type: null, expected a string"
    ));
}

#[test]
fn a_bearer_of_another_type_does_not_match() {
    let mut document = profile_document(None);
    document.included[2].bearer = Some(identifier("user-1", "licenses"));

    assert!(matches!(
        CurrentProfile::from_document(document),
        Err(Error::InvalidResponse(m)) if m == "the /me response did not include a token for the current bearer"
    ));
}
