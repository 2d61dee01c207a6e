use auth_proxy::config::Config;
use auth_proxy::handlers::{config_echo, health, unmatched};
use auth_proxy::response::Status;

#[test]
fn health_is_accepted_with_ok_record() {
    let reply = health();
    assert_eq!(reply.status, Status::Accepted);
    assert_eq!(reply.status.code(), 202);
    assert_eq!(reply.body.data, "OK");
    assert_eq!(reply.body.code, 200);
}

#[test]
fn config_echo_shows_the_backend_url() {
    let config = Config {
        backend_url: "http://up:9000".to_string(),
        secret_token: "hunter2".to_string(),
        port: 8080,
        extra_values: Some("x".to_string()),
    };
    let reply = config_echo(&config);
    assert_eq!(reply.status.code(), 202);
    assert_eq!(reply.body.data, "backend_url:http://up:9000");
    assert_eq!(reply.body.code, 200);
    assert!(!reply.body.data.contains("hunter2"));
}

#[test]
fn config_echo_is_the_same_whatever_the_secret() {
    let mut a = Config::default();
    let mut b = Config::default();
    a.secret_token = "first".to_string();
    b.secret_token = "second".to_string();
    b.port = 1;
    assert_eq!(config_echo(&a), config_echo(&b));
}

#[test]
fn unmatched_route_is_not_found() {
    let reply = unmatched();
    assert_eq!(reply.status.code(), 404);
    assert_eq!(reply.body.data, "Unidentified endpoint");
    assert_eq!(reply.body.code, 404);
}
