use modo::middleware::security_headers::{apply_headers, response_headers, Environment, SecurityHeadersConfig};
use modo::middleware::trailing_slash::{redirect_to, trailing_slash_action, SlashAction, TrailingSlash};
use modo::request_id::RequestId;

fn default_like_config() -> SecurityHeadersConfig {
    SecurityHeadersConfig {
        enabled: true,
        x_content_type_options: Some("nosniff".to_string()),
        x_frame_options: Some("DENY".to_string()),
        referrer_policy: Some("strict-origin-when-cross-origin".to_string()),
        permissions_policy: None,
        content_security_policy: Some("default-src 'self'".to_string()),
        hsts: true,
        hsts_max_age: 31536000,
    }
}

fn get<'a>(headers: &'a [(String, String)], name: &str) -> Option<&'a str> {
    headers.iter().find(|(n, _)| n == name).map(|(_, v)| v.as_str())
}

#[test]
fn test_default_headers_applied() {
    let config = default_like_config();
    let headers = apply_headers(&config, Environment::Development);
    assert_eq!(get(&headers, "x-content-type-options").unwrap(), "nosniff");
    assert_eq!(get(&headers, "x-frame-options").unwrap(), "DENY");
    assert_eq!(get(&headers, "referrer-policy").unwrap(), "strict-origin-when-cross-origin");
    assert_eq!(get(&headers, "content-security-policy").unwrap(), "default-src 'self'");
    // HSTS should NOT be set in non-production env
    assert!(get(&headers, "strict-transport-security").is_none());
}

#[test]
fn test_disabled_headers() {
    let config = SecurityHeadersConfig { enabled: false, ..default_like_config() };
    let headers = response_headers(&config, Environment::Development);
    assert!(headers.is_empty());
}

#[test]
fn hsts_in_production() {
    let headers = apply_headers(&default_like_config(), Environment::Production);
    assert_eq!(
        get(&headers, "strict-transport-security").unwrap(),
        "max-age=31536000; includeSubDomains"
    );
    assert_eq!(headers.len(), 5);
}

#[test]
fn test_redirect_preserves_query() {
    let uri: http::Uri = "/foo/?bar=baz".parse().unwrap();
    let response = redirect_to(uri.query(), "/foo");
    assert_eq!(response.status, http::StatusCode::MOVED_PERMANENTLY.as_u16());
    assert_eq!(response.location, "/foo?bar=baz");
}

#[test]
fn test_redirect_no_query() {
    let uri: http::Uri = "/foo/".parse().unwrap();
    let response = redirect_to(uri.query(), "/foo");
    assert_eq!(response.location, "/foo");
}

#[test]
fn trailing_slash_modes() {
    assert!(matches!(trailing_slash_action(TrailingSlash::Ignore, "/foo/", None), SlashAction::Continue));
    match trailing_slash_action(TrailingSlash::Strip, "/foo//", Some("a=1")) {
        SlashAction::Redirect(r) => {
            assert_eq!(r.status, 301);
            assert_eq!(r.location, "/foo?a=1");
        }
        SlashAction::Continue => panic!("expected redirect"),
    }
    assert!(matches!(trailing_slash_action(TrailingSlash::Strip, "/", None), SlashAction::Continue));
    assert!(matches!(trailing_slash_action(TrailingSlash::Strip, "/foo", None), SlashAction::Continue));
    match trailing_slash_action(TrailingSlash::Add, "/foo", None) {
        SlashAction::Redirect(r) => assert_eq!(r.location, "/foo/"),
        SlashAction::Continue => panic!("expected redirect"),
    }
    assert!(matches!(trailing_slash_action(TrailingSlash::Add, "/foo/", None), SlashAction::Continue));
}

#[test]
fn request_id_from_header() {
    assert_eq!(RequestId::from_header(Some("abc-123")).as_str(), "abc-123");
    let fresh = RequestId::from_header(Some(""));
    assert_eq!(fresh.as_str().len(), 26);
    assert!(fresh.to_string().chars().all(|c| c.is_ascii_digit() || c.is_ascii_lowercase()));
    assert_eq!(RequestId::from_header(None).as_str().len(), 26);
    assert_ne!(RequestId::generate().as_str(), RequestId::generate().as_str());
}

#[test]
fn invalid_header_values_are_skipped() {
    let config = SecurityHeadersConfig {
        x_frame_options: Some("DENY\r\nx-injected: 1".to_string()),
        permissions_policy: Some("camera=()\u{7f}".to_string()),
        referrer_policy: Some("caf\u{e9}\tnote".to_string()),
        ..default_like_config()
    };
    let headers = apply_headers(&config, Environment::Development);
    assert!(get(&headers, "x-frame-options").is_none());
    assert!(get(&headers, "permissions-policy").is_none());
    assert_eq!(get(&headers, "referrer-policy").unwrap(), "caf\u{e9}\tnote");
    assert_eq!(get(&headers, "x-content-type-options").unwrap(), "nosniff");
    assert_eq!(headers.len(), 3);
}
