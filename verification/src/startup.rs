//! What the process does before it serves: it loads its configuration and
//! binds its socket, or it says why it cannot and ends with a failure code.

use crate::config::{recognized, Config, ConfigView, EntryView};
use crate::loader::{
    fault_text, from_document, lemma_unknown_field_is_rejected, read_document, ConfigDocument,
    DocumentView,
};
use crate::text::{decimal, decimal_digits, join_texts};
use vstd::prelude::*;

verus! {

/// What was found where the configuration file should be.
#[derive(Debug, Clone, PartialEq, Eq)]
pub enum ConfigSource {
    /// The file could not be read.
    Unreadable { cause: String },
    /// The file was read, but its text is no well-formed document.
    Malformed { cause: String },
    /// The document that the file holds.
    Document(ConfigDocument),
}

/// A configuration source as a mathematical value.
pub enum SourceView {
    Unreadable { cause: Seq<char> },
    Malformed { cause: Seq<char> },
    Document(DocumentView),
}

impl View for ConfigSource {
    type V = SourceView;

    open spec fn view(&self) -> SourceView {
        match self {
            ConfigSource::Unreadable { cause } => SourceView::Unreadable { cause: cause@ },
            ConfigSource::Malformed { cause } => SourceView::Malformed { cause: cause@ },
            ConfigSource::Document(document) => SourceView::Document(document@),
        }
    }
}

/// The failures that end the process before it serves.
#[derive(Debug, Clone, PartialEq, Eq)]
pub enum StartupError {
    /// The configuration file is missing or unreadable.
    ConfigRead { path: String, cause: String },
    /// The configuration file is malformed, or sets what it may not.
    ConfigParse { path: String, cause: String },
    /// The listening socket could not be bound.
    SocketBind { address: String, cause: String },
}

/// A startup failure as a mathematical value.
pub enum StartupErrorView {
    ConfigRead { path: Seq<char>, cause: Seq<char> },
    ConfigParse { path: Seq<char>, cause: Seq<char> },
    SocketBind { address: Seq<char>, cause: Seq<char> },
}

impl View for StartupError {
    type V = StartupErrorView;

    open spec fn view(&self) -> StartupErrorView {
        match self {
            StartupError::ConfigRead { path, cause } => StartupErrorView::ConfigRead {
                path: path@,
                cause: cause@,
            },
            StartupError::ConfigParse { path, cause } => StartupErrorView::ConfigParse {
                path: path@,
                cause: cause@,
            },
            StartupError::SocketBind { address, cause } => StartupErrorView::SocketBind {
                address: address@,
                cause: cause@,
            },
        }
    }
}

/// The exit code of a process that could not start.
pub const FAILURE_EXIT_CODE: i32 = 1;

/// The exit code of a process that shut down in good order.
pub const GRACEFUL_EXIT_CODE: i32 = 0;

/// The diagnostic of a startup failure: the file or address that failed,
/// and the cause.
pub open spec fn diagnostic_text(error: StartupErrorView) -> Seq<char> {
    match error {
        StartupErrorView::ConfigRead { path, cause } => "Failed to read config file '"@ + path
            + "': "@ + cause,
        StartupErrorView::ConfigParse { path, cause } => "Failed to parse file '"@ + path + "': "@
            + cause,
        StartupErrorView::SocketBind { address, cause } => "Failed to bind '"@ + address + "': "@
            + cause,
    }
}

/// `opening`, `subject`, `': ` and `cause`, joined.
fn compose_diagnostic(opening: &str, subject: &str, cause: &str) -> (text: String)
    ensures
        text@ == opening@ + subject@ + "': "@ + cause@,
{
    let mut text = join_texts(opening, subject);
    text.append("': ");
    text.append(cause);
    text
}

impl StartupError {
    /// The line that is printed to the error stream before the process ends.
    pub fn diagnostic(&self) -> (text: String)
        ensures
            text@ == diagnostic_text(self@),
    {
        match self {
            StartupError::ConfigRead { path, cause } => compose_diagnostic(
                "Failed to read config file '",
                path.as_str(),
                cause.as_str(),
            ),
            StartupError::ConfigParse { path, cause } => compose_diagnostic(
                "Failed to parse file '",
                path.as_str(),
                cause.as_str(),
            ),
            StartupError::SocketBind { address, cause } => compose_diagnostic(
                "Failed to bind '",
                address.as_str(),
                cause.as_str(),
            ),
        }
    }

    /// The code the process ends with.
    pub fn exit_code(&self) -> (code: i32)
        ensures
            code == FAILURE_EXIT_CODE,
    {
        FAILURE_EXIT_CODE
    }
}

/// What loading gives for each source: an unreadable file is a read error,
/// a malformed text and a faulty document are parse errors, and a valid
/// document is its configuration.
pub open spec fn load_result(path: Seq<char>, source: SourceView) -> Result<
    ConfigView,
    StartupErrorView,
> {
    match source {
        SourceView::Unreadable { cause } => Err(StartupErrorView::ConfigRead { path, cause }),
        SourceView::Malformed { cause } => Err(StartupErrorView::ConfigParse { path, cause }),
        SourceView::Document(document) => match read_document(document) {
            Ok(config) => Ok(config),
            Err(fault) => Err(StartupErrorView::ConfigParse { path, cause: fault_text(fault) }),
        },
    }
}

/// Loads the configuration from what was found at `path`.
pub fn load(path: &str, source: ConfigSource) -> (loaded: Result<Config, StartupError>)
    ensures
        loaded matches Ok(config) ==> load_result(path@, source@) == Ok::<
            ConfigView,
            StartupErrorView,
        >(config@),
        loaded matches Err(error) ==> load_result(path@, source@) == Err::<
            ConfigView,
            StartupErrorView,
        >(error@),
{
    match source {
        ConfigSource::Unreadable { cause } => Err(
            StartupError::ConfigRead { path: String::from_str(path), cause },
        ),
        ConfigSource::Malformed { cause } => Err(
            StartupError::ConfigParse { path: String::from_str(path), cause },
        ),
        ConfigSource::Document(document) => match from_document(&document) {
            Ok(config) => Ok(config),
            Err(fault) => Err(
                StartupError::ConfigParse { path: String::from_str(path), cause: fault.describe() },
            ),
        },
    }
}

/// The address the proxy listens on: every interface, at the configured
/// port.
pub open spec fn bind_address_of(config: ConfigView) -> Seq<char> {
    "0.0.0.0:"@ + decimal_digits(config.port as nat)
}

/// The address the proxy listens on.
pub fn bind_address(config: &Config) -> (address: String)
    ensures
        address@ == bind_address_of(config@),
{
    let port = decimal(config.port as u64);
    join_texts("0.0.0.0:", port.as_str())
}

/// What the process does once loading has ended.
#[derive(Debug, Clone, PartialEq, Eq)]
pub enum StartupPlan {
    /// Bind the socket at `address` and serve with `config`.
    Listen { address: String, config: Config },
    /// Print `diagnostic` to the error stream and end with `code`; no
    /// socket is bound.
    Abort { code: i32, diagnostic: String },
}

/// A startup plan as a mathematical value.
pub enum StartupPlanView {
    Listen { address: Seq<char>, config: ConfigView },
    Abort { code: i32, diagnostic: Seq<char> },
}

impl View for StartupPlan {
    type V = StartupPlanView;

    open spec fn view(&self) -> StartupPlanView {
        match self {
            StartupPlan::Listen { address, config } => StartupPlanView::Listen {
                address: address@,
                config: config@,
            },
            StartupPlan::Abort { code, diagnostic } => StartupPlanView::Abort {
                code: *code,
                diagnostic: diagnostic@,
            },
        }
    }
}

/// The plan for each result of loading: a configuration is listened with,
/// an error ends the process.
pub open spec fn plan_for(loaded: Result<ConfigView, StartupErrorView>) -> StartupPlanView {
    match loaded {
        Ok(config) => StartupPlanView::Listen { address: bind_address_of(config), config },
        Err(error) => StartupPlanView::Abort {
            code: FAILURE_EXIT_CODE,
            diagnostic: diagnostic_text(error),
        },
    }
}

/// Decides what the process does once loading has ended.
pub fn plan_startup(loaded: Result<Config, StartupError>) -> (plan: StartupPlan)
    ensures
        loaded matches Ok(config) ==> plan@ == plan_for(
            Ok::<ConfigView, StartupErrorView>(config@),
        ),
        loaded matches Err(error) ==> plan@ == plan_for(
            Err::<ConfigView, StartupErrorView>(error@),
        ),
{
    match loaded {
        Ok(config) => {
            let address = bind_address(&config);
            StartupPlan::Listen { address, config }
        },
        Err(error) => StartupPlan::Abort {
            code: error.exit_code(),
            diagnostic: error.diagnostic(),
        },
    }
}

/// A document with a key that names no field fails to load with a parse
/// error, and the plan that follows binds no socket: it ends the process
/// with the failure code.
pub proof fn lemma_unknown_field_aborts_startup(
    path: Seq<char>,
    entries: Seq<EntryView>,
    at: int,
)
    requires
        0 <= at < entries.len(),
        recognized(entries[at].key) is None,
    ensures
        load_result(
            path,
            SourceView::Document(DocumentView::Mapping(entries)),
        ) matches Err(StartupErrorView::ConfigParse { path: failed, .. }) && failed == path,
        plan_for(
            load_result(path, SourceView::Document(DocumentView::Mapping(entries))),
        ) matches StartupPlanView::Abort { code, .. } && code == FAILURE_EXIT_CODE,
{
    lemma_unknown_field_is_rejected(entries, at);
}

/// Whatever the failure, the plan binds no socket.
pub proof fn lemma_failed_load_binds_nothing(error: StartupErrorView)
    ensures
        plan_for(Err(error)) is Abort,
        plan_for(Err(error))->code == FAILURE_EXIT_CODE,
{
}

} // verus!
