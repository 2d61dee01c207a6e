//! The configuration of the proxy and its defaults.

use crate::text::{decimal, decimal_digits, same_text};
use vstd::prelude::*;

verus! {

/// The settings the proxy runs with. A configuration is made once, when the
/// process starts, and never changed afterwards.
#[derive(Debug, Clone, PartialEq, Eq)]
pub struct Config {
    /// Base URL of the upstream; no trailing slash is assumed.
    pub backend_url: String,
    /// The shared secret from which the bearer credential is minted.
    pub secret_token: String,
    /// The local port the proxy listens on.
    pub port: u16,
    /// Reserved for extensions; nothing reads it.
    pub extra_values: Option<String>,
}

/// A configuration as a mathematical value.
pub struct ConfigView {
    pub backend_url: Seq<char>,
    pub secret_token: Seq<char>,
    pub port: u16,
    pub extra_values: Option<Seq<char>>,
}

impl View for Config {
    type V = ConfigView;

    open spec fn view(&self) -> ConfigView {
        ConfigView {
            backend_url: self.backend_url@,
            secret_token: self.secret_token@,
            port: self.port,
            extra_values: match self.extra_values {
                Some(text) => Some(text@),
                None => None,
            },
        }
    }
}

/// The port taken when a document names none.
pub const DEFAULT_PORT: u16 = 3000;

/// The configuration in which every field has its default.
pub open spec fn default_config() -> ConfigView {
    ConfigView {
        backend_url: "0.0.0.0"@,
        secret_token: "my-secret-token"@,
        port: DEFAULT_PORT,
        extra_values: None,
    }
}

impl Default for Config {
    fn default() -> (config: Config)
        ensures
            config@ == default_config(),
    {
        Config {
            backend_url: String::from_str("0.0.0.0"),
            secret_token: String::from_str("my-secret-token"),
            port: DEFAULT_PORT,
            extra_values: None,
        }
    }
}

/// A scalar of a configuration document, as the reader of the document's
/// syntax hands it over.
#[derive(Debug, Clone, PartialEq, Eq)]
pub enum ConfigValue {
    /// The null scalar, or a value left empty.
    Null,
    /// An integer that is not negative.
    Integer(u64),
    /// A string.
    Text(String),
    /// Anything else: a boolean, a float, a negative integer, a sequence, a
    /// nested mapping.
    Other,
}

/// A document scalar as a mathematical value.
pub enum ValueView {
    Null,
    Integer(u64),
    Text(Seq<char>),
    Other,
}

impl View for ConfigValue {
    type V = ValueView;

    open spec fn view(&self) -> ValueView {
        match self {
            ConfigValue::Null => ValueView::Null,
            ConfigValue::Integer(number) => ValueView::Integer(*number),
            ConfigValue::Text(text) => ValueView::Text(text@),
            ConfigValue::Other => ValueView::Other,
        }
    }
}

impl ConfigValue {
    /// A copy of the value.
    pub fn duplicate(&self) -> (copy: ConfigValue)
        ensures
            copy@ == self@,
    {
        match self {
            ConfigValue::Null => ConfigValue::Null,
            ConfigValue::Integer(number) => ConfigValue::Integer(*number),
            ConfigValue::Text(text) => ConfigValue::Text(text.clone()),
            ConfigValue::Other => ConfigValue::Other,
        }
    }
}

/// One line of a configuration document: a key and its value.
#[derive(Debug, Clone, PartialEq, Eq)]
pub struct ConfigEntry {
    pub key: ConfigValue,
    pub value: ConfigValue,
}

/// A document entry as a mathematical value.
pub struct EntryView {
    pub key: ValueView,
    pub value: ValueView,
}

impl View for ConfigEntry {
    type V = EntryView;

    open spec fn view(&self) -> EntryView {
        EntryView { key: self.key@, value: self.value@ }
    }
}

/// The entries of a document as mathematical values, in their order.
pub open spec fn entry_views(entries: Seq<ConfigEntry>) -> Seq<EntryView> {
    entries.map_values(|entry: ConfigEntry| entry@)
}

/// The fields a configuration document may set.
#[derive(Debug, Clone, Copy, PartialEq, Eq, Structural)]
pub enum Field {
    BackendUrl,
    SecretToken,
    Port,
    ExtraValues,
}

impl Field {
    /// The key under which a document sets the field.
    pub open spec fn name(self) -> Seq<char> {
        match self {
            Field::BackendUrl => "backend_url"@,
            Field::SecretToken => "secret_token"@,
            Field::Port => "port"@,
            Field::ExtraValues => "extra_values"@,
        }
    }

    /// The key under which a document sets the field.
    pub fn label(self) -> (text: &'static str)
        ensures
            text@ == self.name(),
    {
        match self {
            Field::BackendUrl => "backend_url",
            Field::SecretToken => "secret_token",
            Field::Port => "port",
            Field::ExtraValues => "extra_values",
        }
    }
}

/// The field that a key text names, if it names one.
pub open spec fn field_named(text: Seq<char>) -> Option<Field> {
    if text == Field::BackendUrl.name() {
        Some(Field::BackendUrl)
    } else if text == Field::SecretToken.name() {
        Some(Field::SecretToken)
    } else if text == Field::Port.name() {
        Some(Field::Port)
    } else if text == Field::ExtraValues.name() {
        Some(Field::ExtraValues)
    } else {
        None
    }
}

/// The field that a key stands for. A key that is no string stands for none.
pub open spec fn recognized(key: ValueView) -> Option<Field> {
    match key {
        ValueView::Text(text) => field_named(text),
        _ => None,
    }
}

/// Finds the field that a key stands for.
pub fn recognize(key: &ConfigValue) -> (field: Option<Field>)
    ensures
        field == recognized(key@),
{
    match key {
        ConfigValue::Text(text) => {
            if same_text(text.as_str(), Field::BackendUrl.label()) {
                Some(Field::BackendUrl)
            } else if same_text(text.as_str(), Field::SecretToken.label()) {
                Some(Field::SecretToken)
            } else if same_text(text.as_str(), Field::Port.label()) {
                Some(Field::Port)
            } else if same_text(text.as_str(), Field::ExtraValues.label()) {
                Some(Field::ExtraValues)
            } else {
                None
            }
        },
        _ => None,
    }
}

/// The names of the four fields differ from each other, so a key names at
/// most one field, and each field is named by its own key.
pub proof fn lemma_field_names(field: Field)
    ensures
        field_named(field.name()) == Some(field),
{
    reveal_strlit("backend_url");
    reveal_strlit("secret_token");
    reveal_strlit("port");
    reveal_strlit("extra_values");
    assert("backend_url"@.len() == 11);
    assert("secret_token"@.len() == 12);
    assert("port"@.len() == 4);
    assert("extra_values"@.len() == 12);
    assert("secret_token"@[0] == 's');
    assert("extra_values"@[0] == 'e');
}

/// What a value gives where a text is wanted: a string as it is, an integer
/// by its decimal numeral.
pub open spec fn as_text(value: ValueView) -> Option<Seq<char>> {
    match value {
        ValueView::Text(text) => Some(text),
        ValueView::Integer(number) => Some(decimal_digits(number as nat)),
        _ => None,
    }
}

/// What a value gives where a port is wanted: an integer of at most 65535.
pub open spec fn as_port(value: ValueView) -> Option<u16> {
    match value {
        ValueView::Integer(number) => if number <= u16::MAX {
            Some(number as u16)
        } else {
            None
        },
        _ => None,
    }
}

/// What a value gives where an optional text is wanted: null is the absent
/// text, anything else is read as a text.
pub open spec fn as_optional_text(value: ValueView) -> Option<Option<Seq<char>>> {
    match value {
        ValueView::Null => Some(None),
        _ => match as_text(value) {
            Some(text) => Some(Some(text)),
            None => None,
        },
    }
}

/// Whether a value can be read as the given field.
pub open spec fn well_typed(field: Field, value: ValueView) -> bool {
    match field {
        Field::BackendUrl => as_text(value) is Some,
        Field::SecretToken => as_text(value) is Some,
        Field::Port => as_port(value) is Some,
        Field::ExtraValues => as_optional_text(value) is Some,
    }
}

/// Reads a value as a text.
pub fn read_text(value: &ConfigValue) -> (text: Option<String>)
    ensures
        text is Some <==> as_text(value@) is Some,
        text matches Some(t) ==> as_text(value@) == Some(t@),
{
    match value {
        ConfigValue::Text(text) => Some(text.clone()),
        ConfigValue::Integer(number) => Some(decimal(*number)),
        _ => None,
    }
}

/// Reads a value as a port.
pub fn read_port(value: &ConfigValue) -> (port: Option<u16>)
    ensures
        port == as_port(value@),
{
    match value {
        ConfigValue::Integer(number) => {
            if *number <= 65535 {
                Some(*number as u16)
            } else {
                None
            }
        },
        _ => None,
    }
}

/// Reads a value as an optional text.
pub fn read_optional_text(value: &ConfigValue) -> (text: Option<Option<String>>)
    ensures
        text is Some <==> as_optional_text(value@) is Some,
        text matches Some(Some(t)) ==> as_optional_text(value@) == Some(Some(t@)),
        text matches Some(None) ==> as_optional_text(value@) == Some(None::<Seq<char>>),
{
    match value {
        ConfigValue::Null => Some(None),
        _ => match read_text(value) {
            Some(text) => Some(Some(text)),
            None => None,
        },
    }
}

} // verus!
