use auth_proxy::config::{
    read_optional_text, read_port, read_text, recognize, Config, ConfigEntry, ConfigValue, Field,
};
use auth_proxy::loader::{from_document, from_entries, ConfigDocument, ConfigFault};

fn text(s: &str) -> ConfigValue {
    ConfigValue::Text(s.to_string())
}

fn entry(key: &str, value: ConfigValue) -> ConfigEntry {
    ConfigEntry { key: text(key), value }
}

#[test]
fn defaults_are_the_documented_ones() {
    let config = Config::default();
    assert_eq!(config.backend_url, "0.0.0.0");
    assert_eq!(config.secret_token, "my-secret-token");
    assert_eq!(config.port, 3000);
    assert_eq!(config.extra_values, None);
}

#[test]
fn empty_mapping_loads_the_defaults() {
    assert_eq!(from_entries(&vec![]), Ok(Config::default()));
    assert_eq!(from_document(&ConfigDocument::Empty), Ok(Config::default()));
    assert_eq!(from_document(&ConfigDocument::Mapping(vec![])), Ok(Config::default()));
}

#[test]
fn explicit_fields_merge_with_defaults() {
    let entries = vec![entry("port", ConfigValue::Integer(8080)), entry("backend_url", text("http://up"))];
    let config = from_entries(&entries).unwrap();
    assert_eq!(config.backend_url, "http://up");
    assert_eq!(config.port, 8080);
    assert_eq!(config.secret_token, "my-secret-token");
    assert_eq!(config.extra_values, None);
}

#[test]
fn every_field_can_be_set() {
    let entries = vec![
        entry("backend_url", text("http://up")),
        entry("secret_token", text("tok")),
        entry("port", ConfigValue::Integer(65535)),
        entry("extra_values", text("more")),
    ];
    let expected = Config {
        backend_url: "http://up".to_string(),
        secret_token: "tok".to_string(),
        port: 65535,
        extra_values: Some("more".to_string()),
    };
    assert_eq!(from_document(&ConfigDocument::Mapping(entries)), Ok(expected));
}

#[test]
fn integer_reads_as_its_numeral_where_text_is_wanted() {
    let entries = vec![entry("secret_token", ConfigValue::Integer(12345))];
    assert_eq!(from_entries(&entries).unwrap().secret_token, "12345");
}

#[test]
fn null_extra_values_is_absent() {
    let entries = vec![entry("extra_values", ConfigValue::Null)];
    assert_eq!(from_entries(&entries).unwrap().extra_values, None);
}

#[test]
fn unknown_field_is_rejected() {
    let entries = vec![entry("port", ConfigValue::Integer(1)), entry("prot", ConfigValue::Integer(2))];
    assert_eq!(from_entries(&entries), Err(ConfigFault::UnknownField { key: text("prot") }));
}

#[test]
fn key_that_is_no_string_is_unknown() {
    let entries = vec![ConfigEntry { key: ConfigValue::Integer(3000), value: text("x") }];
    assert_eq!(
        from_entries(&entries),
        Err(ConfigFault::UnknownField { key: ConfigValue::Integer(3000) })
    );
}

#[test]
fn field_names_are_case_sensitive() {
    let entries = vec![entry("Port", ConfigValue::Integer(1))];
    assert_eq!(from_entries(&entries), Err(ConfigFault::UnknownField { key: text("Port") }));
}

#[test]
fn duplicate_field_is_rejected() {
    let entries = vec![entry("port", ConfigValue::Integer(1)), entry("port", ConfigValue::Integer(1))];
    assert_eq!(from_entries(&entries), Err(ConfigFault::DuplicateField { field: Field::Port }));
}

#[test]
fn wrong_kind_of_value_is_rejected() {
    assert_eq!(
        from_entries(&vec![entry("port", text("3000"))]),
        Err(ConfigFault::InvalidValue { field: Field::Port })
    );
    assert_eq!(
        from_entries(&vec![entry("port", ConfigValue::Integer(65536))]),
        Err(ConfigFault::InvalidValue { field: Field::Port })
    );
    assert_eq!(
        from_entries(&vec![entry("backend_url", ConfigValue::Null)]),
        Err(ConfigFault::InvalidValue { field: Field::BackendUrl })
    );
    assert_eq!(
        from_entries(&vec![entry("secret_token", ConfigValue::Other)]),
        Err(ConfigFault::InvalidValue { field: Field::SecretToken })
    );
    assert_eq!(
        from_entries(&vec![entry("extra_values", ConfigValue::Other)]),
        Err(ConfigFault::InvalidValue { field: Field::ExtraValues })
    );
}

#[test]
fn the_first_fault_is_reported() {
    let entries = vec![
        entry("port", ConfigValue::Other),
        entry("nope", ConfigValue::Null),
        entry("port", ConfigValue::Integer(1)),
    ];
    assert_eq!(from_entries(&entries), Err(ConfigFault::InvalidValue { field: Field::Port }));
    let entries = vec![entry("port", ConfigValue::Integer(1)), entry("port", ConfigValue::Other)];
    assert_eq!(from_entries(&entries), Err(ConfigFault::DuplicateField { field: Field::Port }));
}

#[test]
fn document_that_is_no_mapping_is_rejected() {
    assert_eq!(from_document(&ConfigDocument::Other), Err(ConfigFault::NotAMapping));
}

#[test]
fn faults_are_described() {
    assert_eq!(ConfigFault::NotAMapping.describe(), "invalid type: expected a mapping of fields");
    assert_eq!(
        ConfigFault::UnknownField { key: text("prot") }.describe(),
        "unknown field `prot`, expected one of `backend_url`, `secret_token`, `port`, `extra_values`"
    );
    assert_eq!(
        ConfigFault::UnknownField { key: ConfigValue::Integer(7) }.describe(),
        "unknown field `7`, expected one of `backend_url`, `secret_token`, `port`, `extra_values`"
    );
    assert_eq!(
        ConfigFault::DuplicateField { field: Field::SecretToken }.describe(),
        "duplicate field `secret_token`"
    );
    assert_eq!(
        ConfigFault::InvalidValue { field: Field::ExtraValues }.describe(),
        "invalid value for field `extra_values`"
    );
}

#[test]
fn keys_are_recognized() {
    assert_eq!(recognize(&text("backend_url")), Some(Field::BackendUrl));
    assert_eq!(recognize(&text("secret_token")), Some(Field::SecretToken));
    assert_eq!(recognize(&text("port")), Some(Field::Port));
    assert_eq!(recognize(&text("extra_values")), Some(Field::ExtraValues));
    assert_eq!(recognize(&text("extra")), None);
    assert_eq!(recognize(&ConfigValue::Null), None);
    assert_eq!(Field::Port.label(), "port");
}

#[test]
fn values_are_read_by_kind() {
    assert_eq!(read_text(&text("a")), Some("a".to_string()));
    assert_eq!(read_text(&ConfigValue::Integer(42)), Some("42".to_string()));
    assert_eq!(read_text(&ConfigValue::Null), None);
    assert_eq!(read_port(&ConfigValue::Integer(0)), Some(0));
    assert_eq!(read_port(&ConfigValue::Integer(65535)), Some(65535));
    assert_eq!(read_port(&ConfigValue::Integer(65536)), None);
    assert_eq!(read_port(&text("80")), None);
    assert_eq!(read_optional_text(&ConfigValue::Null), Some(None));
    assert_eq!(read_optional_text(&text("x")), Some(Some("x".to_string())));
    assert_eq!(read_optional_text(&ConfigValue::Other), None);
    assert_eq!(text("x").duplicate(), text("x"));
}
