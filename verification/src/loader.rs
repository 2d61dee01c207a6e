//! The configuration loader: from the entries of a document to a
//! configuration. A field that the document leaves out takes its default; a
//! key that names no field, a field set twice and a value of the wrong kind
//! each make the whole document fail.

use crate::config::{
    as_optional_text, as_port, as_text, default_config, entry_views, read_optional_text, read_port,
    read_text, recognize, recognized, well_typed, Config, ConfigEntry, ConfigValue, ConfigView,
    EntryView, Field, ValueView, DEFAULT_PORT,
};
use crate::text::{decimal, decimal_digits, join_texts};
use vstd::prelude::*;

verus! {

/// What is wrong with a document.
#[derive(Debug, Clone, PartialEq, Eq)]
pub enum ConfigFault {
    /// The document is no mapping from keys to values.
    NotAMapping,
    /// A key names none of the fields.
    UnknownField { key: ConfigValue },
    /// A field is set a second time.
    DuplicateField { field: Field },
    /// The value of a field cannot be read as that field.
    InvalidValue { field: Field },
}

/// A fault as a mathematical value.
pub enum FaultView {
    NotAMapping,
    UnknownField { key: ValueView },
    DuplicateField { field: Field },
    InvalidValue { field: Field },
}

impl View for ConfigFault {
    type V = FaultView;

    open spec fn view(&self) -> FaultView {
        match self {
            ConfigFault::NotAMapping => FaultView::NotAMapping,
            ConfigFault::UnknownField { key } => FaultView::UnknownField { key: key@ },
            ConfigFault::DuplicateField { field } => FaultView::DuplicateField { field: *field },
            ConfigFault::InvalidValue { field } => FaultView::InvalidValue { field: *field },
        }
    }
}

/// How a key is shown in a diagnostic.
pub open spec fn key_text(key: ValueView) -> Seq<char> {
    match key {
        ValueView::Text(text) => text,
        ValueView::Integer(number) => decimal_digits(number as nat),
        ValueView::Null => "null"@,
        ValueView::Other => "?"@,
    }
}

/// The description of a fault.
pub open spec fn fault_text(fault: FaultView) -> Seq<char> {
    match fault {
        FaultView::NotAMapping => "invalid type: expected a mapping of fields"@,
        FaultView::UnknownField { key } => "unknown field `"@ + key_text(key)
            + "`, expected one of `backend_url`, `secret_token`, `port`, `extra_values`"@,
        FaultView::DuplicateField { field } => "duplicate field `"@ + field.name() + "`"@,
        FaultView::InvalidValue { field } => "invalid value for field `"@ + field.name() + "`"@,
    }
}

/// Shows a key for a diagnostic.
fn show_key(key: &ConfigValue) -> (text: String)
    ensures
        text@ == key_text(key@),
{
    match key {
        ConfigValue::Text(text) => text.clone(),
        ConfigValue::Integer(number) => decimal(*number),
        ConfigValue::Null => String::from_str("null"),
        ConfigValue::Other => String::from_str("?"),
    }
}

impl ConfigFault {
    /// Describes the fault in words, for the diagnostic of a failed start.
    pub fn describe(&self) -> (text: String)
        ensures
            text@ == fault_text(self@),
    {
        match self {
            ConfigFault::NotAMapping => String::from_str(
                "invalid type: expected a mapping of fields",
            ),
            ConfigFault::UnknownField { key } => {
                let mut text = join_texts("unknown field `", show_key(key).as_str());
                text.append(
                    "`, expected one of `backend_url`, `secret_token`, `port`, `extra_values`",
                );
                text
            },
            ConfigFault::DuplicateField { field } => {
                let mut text = join_texts("duplicate field `", field.label());
                text.append("`");
                text
            },
            ConfigFault::InvalidValue { field } => {
                let mut text = join_texts("invalid value for field `", field.label());
                text.append("`");
                text
            },
        }
    }
}

/// Whether one of the first `end` entries sets the field.
pub open spec fn sets_before(entries: Seq<EntryView>, end: int, field: Field) -> bool {
    exists|j: int|
        0 <= j < end && j < entries.len() && recognized(#[trigger] entries[j].key) == Some(field)
}

/// Whether any entry sets the field.
pub open spec fn sets(entries: Seq<EntryView>, field: Field) -> bool {
    sets_before(entries, entries.len() as int, field)
}

/// What is wrong with the entry at `at`, read after the entries before it:
/// its key names no field, or a field that an earlier entry has set, or its
/// value cannot be read as the field.
pub open spec fn entry_fault(entries: Seq<EntryView>, at: int) -> Option<FaultView> {
    match recognized(entries[at].key) {
        None => Some(FaultView::UnknownField { key: entries[at].key }),
        Some(field) => if sets_before(entries, at, field) {
            Some(FaultView::DuplicateField { field })
        } else if !well_typed(field, entries[at].value) {
            Some(FaultView::InvalidValue { field })
        } else {
            None
        },
    }
}

/// No entry among the first `end` is at fault.
pub open spec fn faultless_before(entries: Seq<EntryView>, end: int) -> bool {
    forall|i: int|
        0 <= i < end && i < entries.len() ==> (#[trigger] entry_fault(entries, i)) is None
}

/// A document is valid when none of its entries is at fault.
pub open spec fn valid(entries: Seq<EntryView>) -> bool {
    faultless_before(entries, entries.len() as int)
}

/// The value that a document gives a field it sets.
pub open spec fn value_of(entries: Seq<EntryView>, field: Field) -> ValueView {
    let at = choose|j: int|
        0 <= j < entries.len() && recognized(#[trigger] entries[j].key) == Some(field);
    entries[at].value
}

/// The configuration that a valid document stands for: each field that the
/// document sets, as its value reads; each other field, by its default.
pub open spec fn merged(entries: Seq<EntryView>) -> ConfigView {
    ConfigView {
        backend_url: if sets(entries, Field::BackendUrl) {
            as_text(value_of(entries, Field::BackendUrl))->0
        } else {
            default_config().backend_url
        },
        secret_token: if sets(entries, Field::SecretToken) {
            as_text(value_of(entries, Field::SecretToken))->0
        } else {
            default_config().secret_token
        },
        port: if sets(entries, Field::Port) {
            as_port(value_of(entries, Field::Port))->0
        } else {
            default_config().port
        },
        extra_values: if sets(entries, Field::ExtraValues) {
            as_optional_text(value_of(entries, Field::ExtraValues))->0
        } else {
            default_config().extra_values
        },
    }
}

/// In a valid document no field is set twice: the entry that sets a field
/// is the one whose value the field takes.
pub proof fn lemma_field_is_set_once(entries: Seq<EntryView>, field: Field, at: int)
    requires
        valid(entries),
        0 <= at < entries.len(),
        recognized(entries[at].key) == Some(field),
    ensures
        sets(entries, field),
        value_of(entries, field) == entries[at].value,
        well_typed(field, entries[at].value),
{
    let chosen = choose|j: int|
        0 <= j < entries.len() && recognized(#[trigger] entries[j].key) == Some(field);
    assert(entry_fault(entries, at) is None);
    assert(entry_fault(entries, chosen) is None);
    if chosen < at {
        assert(sets_before(entries, at, field));
    } else if at < chosen {
        assert(sets_before(entries, chosen, field));
    }
}

/// Reads the entries of a document into a configuration.
///
/// The result is `Ok` exactly when the document is valid, and then it is the
/// merge of the document with the defaults. Otherwise the fault is that of
/// the first entry at fault.
pub fn from_entries(entries: &Vec<ConfigEntry>) -> (loaded: Result<Config, ConfigFault>)
    ensures
        loaded is Ok <==> valid(entry_views(entries@)),
        loaded matches Ok(config) ==> config@ == merged(entry_views(entries@)),
        loaded matches Err(fault) ==> exists|at: int|
            0 <= at < entries.len() && faultless_before(entry_views(entries@), at)
                && #[trigger] entry_fault(entry_views(entries@), at) == Some(fault@),
{
    let ghost views = entry_views(entries@);
    let mut backend_url: Option<String> = None;
    let mut secret_token: Option<String> = None;
    let mut port: Option<u16> = None;
    let mut extra_values: Option<Option<String>> = None;
    let mut at: usize = 0;
    while at < entries.len()
        invariant
            at <= entries.len(),
            views == entry_views(entries@),
            views.len() == entries.len(),
            faultless_before(views, at as int),
            backend_url is Some <==> sets_before(views, at as int, Field::BackendUrl),
            secret_token is Some <==> sets_before(views, at as int, Field::SecretToken),
            port is Some <==> sets_before(views, at as int, Field::Port),
            extra_values is Some <==> sets_before(views, at as int, Field::ExtraValues),
            backend_url matches Some(text) ==> exists|j: int|
                0 <= j < at && recognized(#[trigger] views[j].key) == Some(Field::BackendUrl)
                    && as_text(views[j].value) == Some(text@),
            secret_token matches Some(text) ==> exists|j: int|
                0 <= j < at && recognized(#[trigger] views[j].key) == Some(Field::SecretToken)
                    && as_text(views[j].value) == Some(text@),
            port matches Some(number) ==> exists|j: int|
                0 <= j < at && recognized(#[trigger] views[j].key) == Some(Field::Port)
                    && as_port(views[j].value) == Some(number),
            extra_values matches Some(Some(text)) ==> exists|j: int|
                0 <= j < at && recognized(#[trigger] views[j].key) == Some(Field::ExtraValues)
                    && as_optional_text(views[j].value) == Some(Some(text@)),
            extra_values matches Some(None) ==> exists|j: int|
                0 <= j < at && recognized(#[trigger] views[j].key) == Some(Field::ExtraValues)
                    && as_optional_text(views[j].value) == Some(None::<Seq<char>>),
        decreases entries.len() - at,
    {
        let entry = &entries[at];
        assert(views[at as int] == entry@);
        let ghost here = at as int;
        match recognize(&entry.key) {
            None => {
                let fault = ConfigFault::UnknownField { key: entry.key.duplicate() };
                assert(entry_fault(views, here) == Some(fault@));
                return Err(fault);
            },
            Some(Field::BackendUrl) => {
                if backend_url.is_some() {
                    let fault = ConfigFault::DuplicateField { field: Field::BackendUrl };
                    assert(entry_fault(views, here) == Some(fault@));
                    return Err(fault);
                }
                match read_text(&entry.value) {
                    Some(text) => {
                        backend_url = Some(text);
                    },
                    None => {
                        let fault = ConfigFault::InvalidValue { field: Field::BackendUrl };
                        assert(entry_fault(views, here) == Some(fault@));
                        return Err(fault);
                    },
                }
            },
            Some(Field::SecretToken) => {
                if secret_token.is_some() {
                    let fault = ConfigFault::DuplicateField { field: Field::SecretToken };
                    assert(entry_fault(views, here) == Some(fault@));
                    return Err(fault);
                }
                match read_text(&entry.value) {
                    Some(text) => {
                        secret_token = Some(text);
                    },
                    None => {
                        let fault = ConfigFault::InvalidValue { field: Field::SecretToken };
                        assert(entry_fault(views, here) == Some(fault@));
                        return Err(fault);
                    },
                }
            },
            Some(Field::Port) => {
                if port.is_some() {
                    let fault = ConfigFault::DuplicateField { field: Field::Port };
                    assert(entry_fault(views, here) == Some(fault@));
                    return Err(fault);
                }
                match read_port(&entry.value) {
                    Some(number) => {
                        port = Some(number);
                    },
                    None => {
                        let fault = ConfigFault::InvalidValue { field: Field::Port };
                        assert(entry_fault(views, here) == Some(fault@));
                        return Err(fault);
                    },
                }
            },
            Some(Field::ExtraValues) => {
                if extra_values.is_some() {
                    let fault = ConfigFault::DuplicateField { field: Field::ExtraValues };
                    assert(entry_fault(views, here) == Some(fault@));
                    return Err(fault);
                }
                match read_optional_text(&entry.value) {
                    Some(text) => {
                        extra_values = Some(text);
                    },
                    None => {
                        let fault = ConfigFault::InvalidValue { field: Field::ExtraValues };
                        assert(entry_fault(views, here) == Some(fault@));
                        return Err(fault);
                    },
                }
            },
        }
        proof {
            assert(entry_fault(views, here) is None);
            lemma_sets_before_step(views, here);
        }
        at = at + 1;
    }
    proof {
        lemma_slots_are_merged(views);
    }
    let config = Config {
        backend_url: match backend_url {
            Some(text) => text,
            None => String::from_str("0.0.0.0"),
        },
        secret_token: match secret_token {
            Some(text) => text,
            None => String::from_str("my-secret-token"),
        },
        port: match port {
            Some(number) => number,
            None => DEFAULT_PORT,
        },
        extra_values: match extra_values {
            Some(text) => text,
            None => None,
        },
    };
    Ok(config)
}

/// How the set fields grow by one entry: after the entry at `at`, a field
/// is set if it was set before or the entry names it.
proof fn lemma_sets_before_step(entries: Seq<EntryView>, at: int)
    requires
        0 <= at < entries.len(),
    ensures
        forall|field: Field| #[trigger]
            sets_before(entries, at + 1, field) <==> (sets_before(entries, at, field)
                || recognized(entries[at].key) == Some(field)),
{
    assert forall|field: Field| #[trigger]
        sets_before(entries, at + 1, field) <==> (sets_before(entries, at, field) || recognized(
            entries[at].key,
        ) == Some(field)) by {
        if sets_before(entries, at + 1, field) {
            let j = choose|j: int|
                0 <= j < at + 1 && j < entries.len() && recognized(#[trigger] entries[j].key)
                    == Some(field);
            if j < at {
                assert(sets_before(entries, at, field));
            }
        }
        if sets_before(entries, at, field) {
            let j = choose|j: int|
                0 <= j < at && j < entries.len() && recognized(#[trigger] entries[j].key) == Some(
                    field,
                );
            assert(0 <= j < at + 1 && recognized(entries[j].key) == Some(field));
        }
        if recognized(entries[at].key) == Some(field) {
            assert(0 <= at < at + 1 && recognized(entries[at].key) == Some(field));
        }
    }
}

/// In a valid document each entry that sets a field is the one that
/// `value_of` picks for it.
proof fn lemma_slots_are_merged(entries: Seq<EntryView>)
    requires
        valid(entries),
    ensures
        forall|j: int, field: Field|
            0 <= j < entries.len() && recognized(#[trigger] entries[j].key) == Some(field)
                ==> #[trigger] value_of(entries, field) == entries[j].value,
{
    assert forall|j: int, field: Field|
        0 <= j < entries.len() && recognized(#[trigger] entries[j].key) == Some(
            field,
        ) implies #[trigger] value_of(entries, field) == entries[j].value by {
        lemma_field_is_set_once(entries, field, j);
    }
}

/// The place of the first entry at fault in a document that is not valid.
pub open spec fn first_fault_at(entries: Seq<EntryView>) -> int {
    choose|at: int|
        0 <= at < entries.len() && faultless_before(entries, at) && (#[trigger] entry_fault(
            entries,
            at,
        )) is Some
}

/// The fault of the first entry at fault.
pub open spec fn first_fault(entries: Seq<EntryView>) -> FaultView {
    entry_fault(entries, first_fault_at(entries))->0
}

/// There is one first fault: an entry at fault with none before it is the
/// entry that `first_fault_at` names.
pub proof fn lemma_first_fault(entries: Seq<EntryView>, at: int)
    requires
        0 <= at < entries.len(),
        faultless_before(entries, at),
        entry_fault(entries, at) is Some,
    ensures
        first_fault_at(entries) == at,
        !valid(entries),
{
    let chosen = first_fault_at(entries);
    if chosen < at {
        assert(entry_fault(entries, chosen) is None);
    } else if at < chosen {
        assert(entry_fault(entries, at) is None);
    }
}

/// What the syntax of a configuration file holds at its top.
#[derive(Debug, Clone, PartialEq, Eq)]
pub enum ConfigDocument {
    /// Nothing at all: every field takes its default.
    Empty,
    /// A mapping, by its entries in the order of the file.
    Mapping(Vec<ConfigEntry>),
    /// A scalar or a sequence.
    Other,
}

/// A document as a mathematical value.
pub enum DocumentView {
    Empty,
    Mapping(Seq<EntryView>),
    Other,
}

impl View for ConfigDocument {
    type V = DocumentView;

    open spec fn view(&self) -> DocumentView {
        match self {
            ConfigDocument::Empty => DocumentView::Empty,
            ConfigDocument::Mapping(entries) => DocumentView::Mapping(entry_views(entries@)),
            ConfigDocument::Other => DocumentView::Other,
        }
    }
}

/// The configuration of a document, or what is wrong with it.
pub open spec fn read_document(document: DocumentView) -> Result<ConfigView, FaultView> {
    match document {
        DocumentView::Empty => Ok(default_config()),
        DocumentView::Mapping(entries) => if valid(entries) {
            Ok(merged(entries))
        } else {
            Err(first_fault(entries))
        },
        DocumentView::Other => Err(FaultView::NotAMapping),
    }
}

/// Reads a document into a configuration.
pub fn from_document(document: &ConfigDocument) -> (loaded: Result<Config, ConfigFault>)
    ensures
        loaded matches Ok(config) ==> read_document(document@) == Ok::<ConfigView, FaultView>(
            config@,
        ),
        loaded matches Err(fault) ==> read_document(document@) == Err::<ConfigView, FaultView>(
            fault@,
        ),
{
    match document {
        ConfigDocument::Empty => Ok(Config::default()),
        ConfigDocument::Mapping(entries) => {
            let loaded = from_entries(entries);
            proof {
                if loaded is Err {
                    let views = entry_views(entries@);
                    let fault = loaded->Err_0@;
                    let at = choose|at: int|
                        0 <= at < entries.len() && faultless_before(views, at)
                            && #[trigger] entry_fault(views, at) == Some(fault);
                    lemma_first_fault(views, at);
                }
            }
            loaded
        },
        ConfigDocument::Other => Err(ConfigFault::NotAMapping),
    }
}

/// A valid document loads as its explicit fields merged with the defaults:
/// a field that an entry sets has the value of that entry, as it reads; a
/// field that no entry sets has its default.
pub proof fn lemma_explicit_fields_merge_with_defaults(entries: Seq<EntryView>, at: int)
    requires
        valid(entries),
    ensures
        read_document(DocumentView::Mapping(entries)) == Ok::<ConfigView, FaultView>(
            merged(entries),
        ),
        0 <= at < entries.len() ==> match recognized(entries[at].key) {
            Some(Field::BackendUrl) => as_text(entries[at].value) == Some(
                merged(entries).backend_url,
            ),
            Some(Field::SecretToken) => as_text(entries[at].value) == Some(
                merged(entries).secret_token,
            ),
            Some(Field::Port) => as_port(entries[at].value) == Some(merged(entries).port),
            Some(Field::ExtraValues) => as_optional_text(entries[at].value) == Some(
                merged(entries).extra_values,
            ),
            None => false,
        },
        !sets(entries, Field::BackendUrl) ==> merged(entries).backend_url
            == default_config().backend_url,
        !sets(entries, Field::SecretToken) ==> merged(entries).secret_token
            == default_config().secret_token,
        !sets(entries, Field::Port) ==> merged(entries).port == default_config().port,
        !sets(entries, Field::ExtraValues) ==> merged(entries).extra_values
            == default_config().extra_values,
{
    if 0 <= at < entries.len() {
        assert(entry_fault(entries, at) is None);
        match recognized(entries[at].key) {
            Some(field) => {
                lemma_field_is_set_once(entries, field, at);
            },
            None => {},
        }
    }
}

/// A document with a key that names no field does not load.
pub proof fn lemma_unknown_field_is_rejected(entries: Seq<EntryView>, at: int)
    requires
        0 <= at < entries.len(),
        recognized(entries[at].key) is None,
    ensures
        !valid(entries),
        read_document(DocumentView::Mapping(entries)) is Err,
{
    assert(entry_fault(entries, at) is Some);
}

} // verus!
