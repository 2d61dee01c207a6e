use auth_proxy::config::Config;
use auth_proxy::credential::{
    inject_credential, mint_credential, settle_injection, settle_minting, HeaderConstructionError,
};
use auth_proxy::response::Status;
use axum::http::header::{HeaderMap, HeaderValue, ACCEPT, AUTHORIZATION};

fn config_with_secret(secret: &str) -> Config {
    Config {
        backend_url: "http://up".to_string(),
        secret_token: secret.to_string(),
        port: 3000,
        extra_values: None,
    }
}

#[test]
fn credential_is_bearer_and_secret() {
    let value = mint_credential("my-secret-token").unwrap();
    assert_eq!(value.as_bytes(), b"Bearer my-secret-token");
}

#[test]
fn credential_of_an_empty_secret() {
    let value = mint_credential("").unwrap();
    assert_eq!(value.as_bytes(), b"Bearer ");
}

#[test]
fn credential_takes_tabs_and_bytes_beyond_ascii() {
    let value = mint_credential("a\tb\u{e9}").unwrap();
    assert_eq!(value.as_bytes(), "Bearer a\tb\u{e9}".as_bytes());
}

#[test]
fn credential_refuses_control_characters() {
    assert_eq!(mint_credential("line\nbreak"), Err(HeaderConstructionError::InvalidCredential));
    assert_eq!(mint_credential("nul\0"), Err(HeaderConstructionError::InvalidCredential));
    assert_eq!(mint_credential("del\u{7f}"), Err(HeaderConstructionError::InvalidCredential));
    assert_eq!(mint_credential("\u{1f}"), Err(HeaderConstructionError::InvalidCredential));
}

#[test]
fn injection_adds_the_credential() {
    let mut headers = HeaderMap::new();
    headers.insert(ACCEPT, HeaderValue::from_static("text/plain"));
    assert_eq!(inject_credential(&mut headers, &config_with_secret("s3cret")), Ok(()));
    assert_eq!(headers.get(AUTHORIZATION).unwrap(), "Bearer s3cret");
    assert_eq!(headers.get(ACCEPT).unwrap(), "text/plain");
    assert_eq!(headers.len(), 2);
}

#[test]
fn injection_overrides_what_the_caller_sent() {
    let mut headers = HeaderMap::new();
    headers.append(AUTHORIZATION, HeaderValue::from_static("Bearer stolen"));
    headers.append(AUTHORIZATION, HeaderValue::from_static("Basic abc"));
    assert_eq!(inject_credential(&mut headers, &config_with_secret("s3cret")), Ok(()));
    let values: Vec<&HeaderValue> = headers.get_all(AUTHORIZATION).iter().collect();
    assert_eq!(values.len(), 1);
    assert_eq!(values[0], "Bearer s3cret");
}

#[test]
fn injection_twice_is_injection_once() {
    let mut once = HeaderMap::new();
    inject_credential(&mut once, &config_with_secret("s3cret")).unwrap();
    let mut twice = once.clone();
    inject_credential(&mut twice, &config_with_secret("s3cret")).unwrap();
    assert_eq!(once, twice);
}

#[test]
fn injection_with_a_bad_secret_leaves_the_headers() {
    let mut headers = HeaderMap::new();
    headers.insert(AUTHORIZATION, HeaderValue::from_static("Bearer caller"));
    let before = headers.clone();
    let done = inject_credential(&mut headers, &config_with_secret("bad\r\nsecret"));
    assert_eq!(done, Err(HeaderConstructionError::InvalidCredential));
    assert_eq!(headers, before);
}

#[test]
fn construction_errors_answer_500() {
    assert_eq!(HeaderConstructionError::InvalidCredential.status(), Status::InternalServerError);
    assert_eq!(HeaderConstructionError::HeaderSetFull.status().code(), 500);
}

#[test]
fn minting_settles_each_answer_of_the_encoder() {
    let made = HeaderValue::from_str("Bearer x");
    assert_eq!(settle_minting(made).unwrap().as_bytes(), b"Bearer x");
    let refused = HeaderValue::from_str("\n");
    assert_eq!(settle_minting(refused), Err(HeaderConstructionError::InvalidCredential));
}

#[test]
fn injection_settles_each_answer_of_the_header_set() {
    let mut headers = HeaderMap::new();
    let taken = headers.try_insert(AUTHORIZATION, HeaderValue::from_static("x"));
    assert_eq!(settle_injection(taken), Ok(()));
    let full = HeaderMap::<HeaderValue>::try_with_capacity(usize::MAX).map(|_| None);
    assert_eq!(settle_injection(full), Err(HeaderConstructionError::HeaderSetFull));
}
