use handball_auth::callback::{
    complete, finalize, ExchangeError, ExchangeOutcome, Finalize, Reply, Step,
};
use handball_auth::session::{CookieJar, SameSite, User};

fn params(
    code: Option<&str>,
    state: Option<&str>,
    error: Option<&str>,
    error_description: Option<&str>,
) -> Finalize {
    Finalize {
        code: code.map(|s| s.to_string()),
        state: state.map(|s| s.to_string()),
        error: error.map(|s| s.to_string()),
        error_description: error_description.map(|s| s.to_string()),
    }
}

fn is_unauthorized(step: &Step) -> bool {
    matches!(step, Step::Respond(Reply::Unauthorized))
}

#[test]
fn callback_without_anything_is_unauthorized() {
    assert!(is_unauthorized(&finalize(params(None, None, None, None))));
}

#[test]
fn callback_with_error_only_is_unauthorized() {
    assert!(is_unauthorized(&finalize(params(None, Some("/x"), Some("access_denied"), None))));
}

#[test]
fn callback_with_description_only_is_unauthorized() {
    assert!(is_unauthorized(&finalize(params(None, None, None, Some("denied")))));
}

#[test]
fn provider_error_redirects_to_error_page() {
    let step = finalize(params(None, None, Some("access_denied"), Some("...")));
    match step {
        Step::Respond(Reply::Redirect(t)) => assert_eq!(t, "/error/email_not_verified"),
        other => panic!("unexpected step {:?}", other),
    }
}

#[test]
fn code_goes_to_exchange_with_state() {
    let step = finalize(params(Some("abc"), Some("/dashboard"), Some("e"), Some("d")));
    match step {
        Step::Exchange { code, state } => {
            assert_eq!(code, "abc");
            assert_eq!(state.as_deref(), Some("/dashboard"));
        }
        other => panic!("unexpected step {:?}", other),
    }
}

#[test]
fn rejected_code_is_unauthorized_without_cookie() {
    for e in [ExchangeError::Network, ExchangeError::Decode, ExchangeError::Validation] {
        let mut jar = CookieJar::new();
        let r = complete(Some("/home".to_string()), ExchangeOutcome::Failed(e), &mut jar);
        assert!(matches!(r, Reply::Unauthorized));
        assert!(jar.cookies.is_empty());
        assert!(User::from_request(&jar).is_err());
    }
}

#[test]
fn missing_identity_token_is_unauthorized() {
    let mut jar = CookieJar::new();
    let r = complete(None, ExchangeOutcome::NoIdentityToken, &mut jar);
    assert!(matches!(r, Reply::Unauthorized));
    assert!(jar.cookies.is_empty());
}

#[test]
fn undecoded_token_is_internal_fault() {
    let mut jar = CookieJar::new();
    let r = complete(None, ExchangeOutcome::Token { decoded: false }, &mut jar);
    assert!(matches!(r, Reply::InternalError));
    assert!(jar.cookies.is_empty());
}

#[test]
fn valid_token_redirects_to_state_and_sets_cookie() {
    let mut jar = CookieJar::new();
    let r = complete(
        Some("/dashboard".to_string()),
        ExchangeOutcome::Token { decoded: true },
        &mut jar,
    );
    match r {
        Reply::Redirect(t) => assert_eq!(t, "/dashboard"),
        other => panic!("unexpected reply {:?}", other),
    }
    assert_eq!(jar.cookies.len(), 1);
    let c = &jar.cookies[0];
    assert_eq!(c.name, "HANDBALL");
    assert_eq!(c.value, "");
    assert_eq!(c.same_site, SameSite::Lax);
    assert_eq!(c.max_age_secs, Some(20));
}

#[test]
fn valid_token_without_state_redirects_to_root() {
    let mut jar = CookieJar::new();
    let r = complete(None, ExchangeOutcome::Token { decoded: true }, &mut jar);
    match r {
        Reply::Redirect(t) => assert_eq!(t, "/"),
        other => panic!("unexpected reply {:?}", other),
    }
    assert!(User::from_request(&jar).is_ok());
}
