use handball_auth::login::{accept_invite, invitation_pairs, SCOPES};
use url::Url;

#[test]
fn both_parameters_give_two_pairs() {
    let p = invitation_pairs(Some("inv-1"), Some("acme"));
    assert_eq!(
        p,
        vec![
            ("invitation".to_string(), "inv-1".to_string()),
            ("organization".to_string(), "acme".to_string())
        ]
    );
}

#[test]
fn one_parameter_gives_no_pairs() {
    assert!(invitation_pairs(Some("inv-1"), None).is_empty());
    assert!(invitation_pairs(None, Some("acme")).is_empty());
    assert!(invitation_pairs(None, None).is_empty());
}

#[test]
fn invitation_appended_to_existing_query() {
    let url = accept_invite("https://id.example/auth?client_id=x", Some("inv"), Some("org 1"));
    assert_eq!(
        url.as_deref(),
        Some("https://id.example/auth?client_id=x&invitation=inv&organization=org+1")
    );
}

#[test]
fn invitation_starts_query_when_none() {
    let url = accept_invite("https://id.example/auth", Some("a"), Some("b"));
    assert_eq!(url.as_deref(), Some("https://id.example/auth?invitation=a&organization=b"));
}

#[test]
fn lone_parameter_leaves_url_unchanged() {
    let base = "https://id.example/auth?client_id=x";
    assert_eq!(accept_invite(base, Some("a"), None).as_deref(), Some(base));
    assert_eq!(accept_invite(base, None, Some("b")).as_deref(), Some(base));
    assert_eq!(accept_invite(base, None, None).as_deref(), Some(base));
}

#[test]
fn appended_values_come_back_verbatim() {
    let base = "https://id.example/auth?client_id=x&scope=openid+email";
    let invite = "a&b=c #d+e%";
    let org = "Société Ünïcode/?";
    let url = accept_invite(base, Some(invite), Some(org)).unwrap();
    let pairs: Vec<(String, String)> = Url::parse(&url)
        .unwrap()
        .query_pairs()
        .map(|(k, v)| (k.into_owned(), v.into_owned()))
        .collect();
    assert_eq!(
        pairs,
        vec![
            ("client_id".to_string(), "x".to_string()),
            ("scope".to_string(), "openid email".to_string()),
            ("invitation".to_string(), invite.to_string()),
            ("organization".to_string(), org.to_string()),
        ]
    );
}

#[test]
fn fragment_stays_last() {
    let url = accept_invite("https://id.example/auth#top", Some("a"), Some("b"));
    assert_eq!(url.as_deref(), Some("https://id.example/auth?invitation=a&organization=b#top"));
}

#[test]
fn text_that_is_not_a_url_is_refused_when_appending() {
    assert_eq!(accept_invite("not a url", Some("a"), Some("b")), None);
    assert_eq!(accept_invite("not a url", Some("a"), None).as_deref(), Some("not a url"));
}

#[test]
fn requested_scopes() {
    assert_eq!(SCOPES, "openid email username");
}
