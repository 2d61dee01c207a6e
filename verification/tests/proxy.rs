use auth_proxy::config::Config;
use auth_proxy::proxy::{build_upstream_url, forward, relay, Method, UpstreamOutcome};
use auth_proxy::response::Status;
use axum::http::header::{HeaderMap, HeaderValue, ACCEPT, AUTHORIZATION};

fn config_for(backend_url: &str) -> Config {
    Config {
        backend_url: backend_url.to_string(),
        secret_token: "s3cret".to_string(),
        port: 3000,
        extra_values: None,
    }
}

#[test]
fn url_is_backend_slash_path() {
    assert_eq!(build_upstream_url("http://up:8080", "api/items"), "http://up:8080/api/items");
}

#[test]
fn url_drops_trailing_slashes_only() {
    assert_eq!(build_upstream_url("http://up", "api/items///"), "http://up/api/items");
    assert_eq!(build_upstream_url("http://up", "a//b/"), "http://up/a//b");
    assert_eq!(build_upstream_url("http://up", "/"), "http://up/");
    assert_eq!(build_upstream_url("http://up", ""), "http://up/");
}

#[test]
fn url_keeps_a_trailing_slash_of_the_backend() {
    assert_eq!(build_upstream_url("http://up/", "x"), "http://up//x");
}

#[test]
fn forward_gives_one_get_with_the_headers_unchanged() {
    let mut headers = HeaderMap::new();
    headers.insert(AUTHORIZATION, HeaderValue::from_static("Bearer s3cret"));
    headers.insert(ACCEPT, HeaderValue::from_static("text/plain"));
    let expected = headers.clone();
    let request = forward(&config_for("http://up"), "v1/ping/", headers);
    assert_eq!(request.method, Method::Get);
    assert_eq!(request.url, "http://up/v1/ping");
    assert_eq!(request.headers, expected);
}

#[test]
fn upstream_status_is_not_propagated() {
    let reply = relay(UpstreamOutcome::Replied { status: 404, body: Some("not found".to_string()) });
    assert_eq!(reply.status, Status::Success);
    assert_eq!(reply.status.code(), 200);
    assert_eq!(reply.body, "not found");
}

#[test]
fn upstream_server_error_still_answers_200() {
    let reply = relay(UpstreamOutcome::Replied { status: 503, body: Some("down".to_string()) });
    assert_eq!(reply.status.code(), 200);
    assert_eq!(reply.body, "down");
}

#[test]
fn unreadable_body_becomes_empty() {
    let reply = relay(UpstreamOutcome::Replied { status: 200, body: None });
    assert_eq!(reply.status.code(), 200);
    assert_eq!(reply.body, "");
}

#[test]
fn unreachable_upstream_is_bad_gateway() {
    let reply = relay(UpstreamOutcome::Failed { cause: "connection refused".to_string() });
    assert_eq!(reply.status, Status::BadGateway);
    assert_eq!(reply.status.code(), 502);
    assert_eq!(reply.body, "Proxy error: connection refused");
    assert!(reply.body.starts_with("Proxy error: "));
}

#[test]
fn status_codes() {
    assert_eq!(Status::Success.code(), 200);
    assert_eq!(Status::Accepted.code(), 202);
    assert_eq!(Status::NotFound.code(), 404);
    assert_eq!(Status::InternalServerError.code(), 500);
    assert_eq!(Status::BadGateway.code(), 502);
}
