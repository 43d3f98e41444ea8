use keygen_rs::api_version::ApiContractVersion;
use keygen_rs::client::{rate_limit_error, request_host, ClientOptions};
use keygen_rs::config::KeygenConfig;
use keygen_rs::errors::{ApiErrorKind, Error, ErrorMeta};
use keygen_rs::headers::HeaderList;
use keygen_rs::service::{PingResponse, ServiceInfo};

fn headers(pairs: &[(&str, Option<&str>)]) -> HeaderList {
    HeaderList {
        entries: pairs
            .iter()
            .map(|(n, v)| (n.to_string(), v.map(|v| v.to_string())))
            .collect(),
    }
}

#[test]
fn test_rate_limit_error() {
    let list = headers(&[
        ("x-ratelimit-window", Some("60")),
        ("retry-after", Some("30")),
        ("x-ratelimit-count", Some("100")),
        ("x-ratelimit-limit", Some("100")),
        ("x-ratelimit-remaining", Some("0")),
        ("x-ratelimit-reset", Some("1620000000")),
    ]);

    match rate_limit_error(&list) {
        Error::RateLimitExceeded {
            window,
            count,
            limit,
            remaining,
            reset,
            retry_after,
        } => {
            assert_eq!(window, "60");
            assert_eq!(count, 100);
            assert_eq!(limit, 100);
            assert_eq!(remaining, 0);
            assert_eq!(reset, 1620000000);
            assert_eq!(retry_after, 30);
        }
        _ => panic!("Expected RateLimitExceeded error"),
    }
}

#[test]
fn rate_limit_headers_that_are_missing_or_unreadable_count_as_zero() {
    let list = headers(&[
        ("x-ratelimit-count", Some("4294967296")),
        ("x-ratelimit-limit", Some("ten")),
        ("x-ratelimit-window", None),
    ]);
    match rate_limit_error(&list) {
        Error::RateLimitExceeded { window, count, limit, remaining, reset, retry_after } => {
            assert_eq!(window, "");
            assert_eq!((count, limit, remaining, reset, retry_after), (0, 0, 0, 0, 0));
        }
        _ => panic!("Expected RateLimitExceeded error"),
    }
}

fn options() -> ClientOptions {
    let mut config = KeygenConfig::default();
    config.account = "acct".to_string();
    config.license_key = Some("LK".to_string());
    config.token = Some("tok".to_string());
    config.environment = Some("sandbox".to_string());
    ClientOptions::from(config)
}

#[test]
fn client_options_come_from_the_configuration() {
    let o = options();
    assert!(o.verify_keygen_signature);
    assert_eq!(o.api_version, ApiContractVersion::CURRENT);
    let mut config = KeygenConfig::default();
    config.verify_keygen_signature = None;
    assert!(ClientOptions::from(config).verify_keygen_signature);
}

#[test]
fn requests_carry_version_environment_and_authorization() {
    let pairs = |v: Vec<(String, String)>| v;
    assert_eq!(
        pairs(options().request_headers(true, true)),
        vec![
            ("accept".to_string(), "application/vnd.api+json".to_string()),
            ("content-type".to_string(), "application/vnd.api+json".to_string()),
            ("keygen-environment".to_string(), "sandbox".to_string()),
            ("keygen-version".to_string(), "1.8".to_string()),
            ("authorization".to_string(), "License LK".to_string()),
        ]
    );
    let mut token_only = options();
    token_only.license_key = None;
    token_only.environment = None;
    token_only.user_agent = Some("agent/1".to_string());
    assert_eq!(
        token_only.request_headers(false, false),
        vec![
            ("accept".to_string(), "application/vnd.api+json".to_string()),
            ("user-agent".to_string(), "agent/1".to_string()),
            ("authorization".to_string(), "Bearer tok".to_string()),
        ]
    );
}

#[test]
fn urls_name_the_account_on_the_hosted_service_only() {
    assert_eq!(
        options().url_path_segments("licenses/actions/validate-key"),
        vec!["v1", "accounts", "acct", "licenses", "actions", "validate-key"]
    );
    let mut own = options();
    own.api_url = "https://licensing.example.com".to_string();
    assert_eq!(own.url_path_segments("me"), vec!["v1", "me"]);
}

#[test]
fn response_signatures_are_skipped_without_a_key_or_when_disabled() {
    let empty = HeaderList { entries: Vec::new() };
    let o = options();
    assert!(o.check_response_signature(&empty, b"", "GET", "/v1/me", None, "api.keygen.sh").is_ok());
    let mut keyed = options();
    keyed.public_key = Some("00".repeat(32));
    assert!(matches!(
        keyed.check_response_signature(&empty, b"", "GET", "/v1/me", Some("a=1"), "api.keygen.sh"),
        Err(Error::KeygenSignatureInvalid { .. })
    ));
    keyed.verify_keygen_signature = false;
    assert!(keyed.check_response_signature(&empty, b"", "GET", "/v1/me", None, "api.keygen.sh").is_ok());
}

#[test]
fn request_hosts_include_explicit_ports() {
    assert_eq!(request_host(Some("localhost"), Some(1234)), "localhost:1234");
    assert_eq!(request_host(Some("api.example.com"), None), "api.example.com");
    assert_eq!(request_host(None, Some(80)), "api.keygen.sh");
}

#[test]
fn ping_and_service_info_read_their_headers() {
    let list = headers(&[
        ("keygen-version", None),
        ("keygen-version", Some("1.7")),
        ("x-api-version", Some("1.9")),
        ("date", Some("Wed, 09 Jun 2021 16:08:15 GMT")),
    ]);
    let ping = PingResponse::from_response(&list, "  ok\n");
    assert_eq!(ping.message, "ok");
    assert_eq!(ping.version, None);
    assert_eq!(ping.timestamp.as_deref(), Some("Wed, 09 Jun 2021 16:08:15 GMT"));

    let info = ServiceInfo::from_response(&list, "ok");
    assert_eq!(info.api_version.as_deref(), Some("1.7"));
    assert_eq!(info.timestamp.as_deref(), Some("Wed, 09 Jun 2021 16:08:15 GMT"));
    assert_eq!(info.message.as_deref(), Some("ok"));
    assert_eq!(info.headers.len(), 3);
}

#[test]
fn classifies_v1_7_and_v1_8_credential_errors_without_losing_raw_codes() {
    assert_eq!(ApiErrorKind::from_code(Some("CREDENTIALS_INVALID")), ApiErrorKind::InvalidCredentials);
    assert_eq!(ApiErrorKind::from_code(Some("PASSWORD_REQUIRED")), ApiErrorKind::PasswordRequired);
}

#[test]
fn preserves_multiple_and_unknown_api_errors() {
    assert_eq!(ApiErrorKind::from_code(Some("FUTURE_ERROR")), ApiErrorKind::Unknown);
    assert_eq!(ApiErrorKind::from_code(None), ApiErrorKind::Unknown);
}

#[test]
fn error_meta_reports_codes_and_details() {
    let coded = Error::LicenseSuspended { code: "SUSPENDED".to_string(), detail: "is suspended".to_string() };
    assert_eq!(coded.code(), "SUSPENDED");
    assert_eq!(coded.detail(), "is suspended");
    assert_eq!(coded.message(), "License suspended");

    let plain = Error::LicenseFileInvalid("bad".to_string());
    assert_eq!(plain.code(), "ERROR");
    assert_eq!(plain.detail(), "License file invalid: bad");
    assert_eq!(Error::MachineNotFound.detail(), "Machine no longer exists");
    assert_eq!(
        Error::KeygenSignatureInvalid { reason: "r".to_string() }.message(),
        "Keygen signature validation failed: r"
    );
}
