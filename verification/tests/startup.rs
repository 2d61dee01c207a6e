use auth_proxy::config::{Config, ConfigEntry, ConfigValue};
use auth_proxy::loader::ConfigDocument;
use auth_proxy::startup::{
    bind_address, load, plan_startup, ConfigSource, StartupError, StartupPlan, FAILURE_EXIT_CODE,
    GRACEFUL_EXIT_CODE,
};

fn entry(key: &str, value: ConfigValue) -> ConfigEntry {
    ConfigEntry { key: ConfigValue::Text(key.to_string()), value }
}

#[test]
fn unreadable_file_is_a_read_error() {
    let loaded = load("config.yaml", ConfigSource::Unreadable { cause: "No such file".to_string() });
    let error = loaded.unwrap_err();
    assert_eq!(
        error,
        StartupError::ConfigRead { path: "config.yaml".to_string(), cause: "No such file".to_string() }
    );
    assert_eq!(error.diagnostic(), "Failed to read config file 'config.yaml': No such file");
    assert_eq!(error.exit_code(), 1);
}

#[test]
fn malformed_text_is_a_parse_error() {
    let loaded = load("c.yaml", ConfigSource::Malformed { cause: "bad indent".to_string() });
    let error = loaded.unwrap_err();
    assert_eq!(
        error,
        StartupError::ConfigParse { path: "c.yaml".to_string(), cause: "bad indent".to_string() }
    );
    assert_eq!(error.diagnostic(), "Failed to parse file 'c.yaml': bad indent");
}

#[test]
fn unknown_field_is_a_parse_error_and_nothing_is_bound() {
    let document = ConfigDocument::Mapping(vec![entry("backend", ConfigValue::Null)]);
    let loaded = load("c.yaml", ConfigSource::Document(document));
    assert_eq!(
        loaded,
        Err(StartupError::ConfigParse {
            path: "c.yaml".to_string(),
            cause: "unknown field `backend`, expected one of `backend_url`, `secret_token`, `port`, `extra_values`".to_string(),
        })
    );
    match plan_startup(loaded) {
        StartupPlan::Abort { code, diagnostic } => {
            assert_eq!(code, 1);
            assert!(diagnostic.starts_with("Failed to parse file 'c.yaml': unknown field `backend`"));
        }
        StartupPlan::Listen { .. } => panic!("a failed load must not listen"),
    }
}

#[test]
fn valid_document_is_listened_with() {
    let document = ConfigDocument::Mapping(vec![entry("port", ConfigValue::Integer(8081))]);
    let loaded = load("c.yaml", ConfigSource::Document(document));
    let mut expected = Config::default();
    expected.port = 8081;
    assert_eq!(loaded, Ok(expected.clone()));
    assert_eq!(
        plan_startup(loaded),
        StartupPlan::Listen { address: "0.0.0.0:8081".to_string(), config: expected }
    );
}

#[test]
fn bind_address_is_every_interface_at_the_port() {
    assert_eq!(bind_address(&Config::default()), "0.0.0.0:3000");
    let mut config = Config::default();
    config.port = 0;
    assert_eq!(bind_address(&config), "0.0.0.0:0");
    config.port = 65535;
    assert_eq!(bind_address(&config), "0.0.0.0:65535");
}

#[test]
fn bind_failure_is_fatal() {
    let error =
        StartupError::SocketBind { address: "0.0.0.0:80".to_string(), cause: "in use".to_string() };
    assert_eq!(error.diagnostic(), "Failed to bind '0.0.0.0:80': in use");
    assert_eq!(error.exit_code(), FAILURE_EXIT_CODE);
    assert_eq!(FAILURE_EXIT_CODE, 1);
    assert_eq!(GRACEFUL_EXIT_CODE, 0);
}
