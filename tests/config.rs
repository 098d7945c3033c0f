use handball_auth::config::{Config, ConfigError, ConfigVar};

fn some(s: &str) -> Option<String> {
    Some(s.to_string())
}

fn build(
    origin: Option<String>,
    issuer: Option<String>,
    id: Option<String>,
    secret: Option<String>,
) -> Result<Config, ConfigError> {
    Config::from_vars(origin, issuer, id, secret)
}

#[test]
fn complete_configuration_is_accepted() {
    let c = build(
        some("https://app.example"),
        some("https://id.example/realms/main"),
        some("client"),
        some("SECRET-REDACTED"),
    )
    .unwrap();
    assert_eq!(c.client_id, "client");
    assert_eq!(c.client_secret, "SECRET-REDACTED");
    assert_eq!(c.redirect_url.as_str(), "https://app.example/login/finalize");
    assert_eq!(c.issuer_url.as_str(), "https://id.example/realms/main");
}

#[test]
fn missing_origin_fails() {
    let r = build(None, some("https://id.example"), some("c"), some("s"));
    assert_eq!(r.err(), Some(ConfigError::Missing(ConfigVar::Origin)));
}

#[test]
fn missing_issuer_fails() {
    let r = build(some("https://app.example"), None, some("c"), some("s"));
    assert_eq!(r.err(), Some(ConfigError::Missing(ConfigVar::AuthIssuer)));
}

#[test]
fn missing_client_id_fails() {
    let r = build(some("https://app.example"), some("https://id.example"), None, some("s"));
    assert_eq!(r.err(), Some(ConfigError::Missing(ConfigVar::AuthClientId)));
}

#[test]
fn missing_client_secret_fails() {
    let r = build(some("https://app.example"), some("https://id.example"), some("c"), None);
    assert_eq!(r.err(), Some(ConfigError::Missing(ConfigVar::AuthClientSecret)));
}

#[test]
fn nothing_set_reports_origin_first() {
    let r = build(None, None, None, None);
    assert_eq!(r.err(), Some(ConfigError::Missing(ConfigVar::Origin)));
}

#[test]
fn malformed_issuer_fails() {
    let r = build(some("https://app.example"), some("not a url"), some("c"), some("s"));
    assert_eq!(r.err(), Some(ConfigError::InvalidIssuerUrl));
}

#[test]
fn relative_origin_gives_invalid_redirect() {
    let r = build(some(""), some("https://id.example"), some("c"), some("s"));
    assert_eq!(r.err(), Some(ConfigError::InvalidRedirectUrl));
}

#[test]
fn malformed_issuer_reported_before_missing_client_id() {
    let r = build(some("https://app.example"), some(""), None, None);
    assert_eq!(r.err(), Some(ConfigError::InvalidIssuerUrl));
}

#[test]
fn setting_names() {
    assert_eq!(ConfigVar::Origin.name(), "ORIGIN");
    assert_eq!(ConfigVar::AuthIssuer.name(), "AUTH_ISSUER");
    assert_eq!(ConfigVar::AuthClientId.name(), "AUTH_CLIENT_ID");
    assert_eq!(ConfigVar::AuthClientSecret.name(), "AUTH_CLIENT_SECRET");
}
