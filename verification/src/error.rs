//! The shell's error type and the text it shows for each error.

use vstd::prelude::*;
use vstd::string::*;

verus! {

/// `std::io::Error`, carried through as an opaque value.
#[verifier::external_type_specification]
#[verifier::external_body]
pub struct ExIoError(std::io::Error);

/// `libloading::Error`, carried through as an opaque value.
#[verifier::external_type_specification]
#[verifier::external_body]
pub struct ExLibraryError(libloading::Error);

/// Whether `std::io::Error::kind` answers `ErrorKind::NotFound` for `e`.
pub uninterp spec fn kind_is_not_found(e: std::io::Error) -> bool;

/// Calls `std::io::Error::kind` and tells `ErrorKind::NotFound` from every
/// other kind. The kind is a function of the error value alone, which is all
/// that the contract claims.
#[verifier::external_body]
pub(crate) fn is_not_found(e: &std::io::Error) -> (found: bool)
    ensures
        found == kind_is_not_found(*e),
{
    matches!(e.kind(), std::io::ErrorKind::NotFound)
}

/// The failure a plugin reports from an invocation. The shell never looks
/// inside it: it is handed back to whoever asked for the invocation.
#[derive(Debug)]
pub struct PluginError {
    pub message: String,
}

impl PluginError {
    /// A failure that reads `message`.
    pub fn new(message: String) -> (e: PluginError)
        ensures
            e.message == message,
    {
        PluginError { message }
    }
}

/// The zula shell error type.
#[derive(Debug)]
pub enum ZulaError {
    /// An operating system failure.
    Io(std::io::Error),
    /// No executable of this name was found.
    InvalidCmd(String),
    /// `cd` was given no directory.
    CommandEmpty,
    /// The operating system refused to enter the directory.
    InvalidDir,
    /// Kept for alias expansion, which happens outside this crate.
    RecursiveAlias,
    /// No plugin is registered under the name.
    InvalidPlugin,
    /// A plugin module could not be opened, resolved or closed.
    LibErr(libloading::Error),
    /// A failure that a plugin reported.
    Opaque(PluginError),
}

/// The error that another error wraps, borrowed from it.
#[derive(Debug)]
pub enum Cause<'a> {
    Io(&'a std::io::Error),
    Library(&'a libloading::Error),
    Plugin(&'a PluginError),
}

impl ZulaError {
    /// The line shown for this error, where `detail` stands for the text of a
    /// wrapped operating system or loader error. The other variants do not
    /// read `detail`.
    pub open spec fn text_with(&self, detail: Seq<char>) -> Seq<char> {
        match self {
            ZulaError::Io(_) => "io error: "@ + detail + "\r\n"@,
            ZulaError::InvalidCmd(cmd) => "unknown command: "@ + cmd@ + "\r\n"@,
            ZulaError::CommandEmpty => "command not given\r\n"@,
            ZulaError::InvalidDir => "directory does not exist\r\n"@,
            ZulaError::RecursiveAlias => "recursive alias called\r\n"@,
            ZulaError::InvalidPlugin => "plugin not found\r\n"@,
            ZulaError::LibErr(_) => "lib error: "@ + detail + "\r\n"@,
            ZulaError::Opaque(e) => "external error: "@ + e.message@ + "\r\n"@,
        }
    }

    /// Whether the line shown depends on the text of a wrapped outside error.
    pub open spec fn wraps_outside_text(&self) -> bool {
        self is Io || self is LibErr
    }

    /// The line shown for this error, given the text of the error it wraps.
    pub fn render_with(&self, detail: &str) -> (text: String)
        ensures
            text@ == self.text_with(detail@),
    {
        match self {
            ZulaError::Io(_) => labelled("io error: ", detail),
            ZulaError::InvalidCmd(cmd) => labelled("unknown command: ", cmd.as_str()),
            ZulaError::CommandEmpty => "command not given\r\n".to_owned(),
            ZulaError::InvalidDir => "directory does not exist\r\n".to_owned(),
            ZulaError::RecursiveAlias => "recursive alias called\r\n".to_owned(),
            ZulaError::InvalidPlugin => "plugin not found\r\n".to_owned(),
            ZulaError::LibErr(_) => labelled("lib error: ", detail),
            ZulaError::Opaque(e) => labelled("external error: ", e.message.as_str()),
        }
    }

    /// The line shown for this error. A wrapped operating system or loader
    /// error contributes its own `Display` text, of which nothing is known
    /// here; everything around that text is fixed.
    pub fn to_string(&self) -> (text: String)
        ensures
            exists|detail: Seq<char>| text@ == #[trigger] self.text_with(detail),
            !self.wraps_outside_text() ==> text@ == self.text_with(Seq::empty()),
    {
        let detail = match self {
            ZulaError::Io(e) => e.to_string(),
            ZulaError::LibErr(e) => e.to_string(),
            _ => String::new(),
        };
        self.render_with(detail.as_str())
    }

    /// The error for a program `cmd` that could not be started: `InvalidCmd`
    /// with the name where the operating system's error `e` says that
    /// nothing of that name was found (`missing`), and `Io` with `e`
    /// otherwise.
    pub fn spawn_failure(cmd: &str, missing: bool, e: std::io::Error) -> (failure: ZulaError)
        ensures
            missing ==> (failure matches ZulaError::InvalidCmd(name) && name@ == cmd@),
            !missing ==> failure == ZulaError::Io(e),
    {
        if missing {
            ZulaError::InvalidCmd(cmd.to_owned())
        } else {
            ZulaError::Io(e)
        }
    }

    /// What the closing of a plugin module means to the one who asked for
    /// it: a module that closed is success, and a loader's error `e` is
    /// `LibErr` with `e`.
    pub fn close_result(closed: Result<(), libloading::Error>) -> (done: Result<(), ZulaError>)
        ensures
            (match closed {
                Ok(()) => done is Ok,
                Err(e) => done == Err::<(), ZulaError>(ZulaError::LibErr(e)),
            }),
    {
        match closed {
            Ok(()) => Ok(()),
            Err(e) => Err(ZulaError::from(e)),
        }
    }

    /// The error this one wraps, if it wraps one.
    pub fn source(&self) -> (cause: Option<Cause<'_>>)
        ensures
            (match *self {
                ZulaError::Io(e) => cause == Some(Cause::Io(&e)),
                ZulaError::LibErr(e) => cause == Some(Cause::Library(&e)),
                ZulaError::Opaque(e) => cause == Some(Cause::Plugin(&e)),
                _ => cause is None,
            }),
    {
        match self {
            ZulaError::Io(e) => Some(Cause::Io(e)),
            ZulaError::LibErr(e) => Some(Cause::Library(e)),
            ZulaError::Opaque(e) => Some(Cause::Plugin(e)),
            _ => None,
        }
    }
}

/// `label`, then `detail`, then the line ending the shell's raw terminal needs.
fn labelled(label: &str, detail: &str) -> (text: String)
    ensures
        text@ == label@ + detail@ + "\r\n"@,
{
    let mut text = label.to_owned();
    text.append(detail);
    text.append("\r\n");
    text
}

impl From<std::io::Error> for ZulaError {
    fn from(value: std::io::Error) -> (e: ZulaError) {
        ZulaError::Io(value)
    }
}

impl vstd::std_specs::convert::FromSpecImpl<std::io::Error> for ZulaError {
    open spec fn obeys_from_spec() -> bool {
        true
    }

    open spec fn from_spec(value: std::io::Error) -> ZulaError {
        ZulaError::Io(value)
    }
}

impl From<libloading::Error> for ZulaError {
    fn from(value: libloading::Error) -> (e: ZulaError) {
        ZulaError::LibErr(value)
    }
}

impl vstd::std_specs::convert::FromSpecImpl<libloading::Error> for ZulaError {
    open spec fn obeys_from_spec() -> bool {
        true
    }

    open spec fn from_spec(value: libloading::Error) -> ZulaError {
        ZulaError::LibErr(value)
    }
}

impl From<PluginError> for ZulaError {
    fn from(value: PluginError) -> (e: ZulaError) {
        ZulaError::Opaque(value)
    }
}

impl vstd::std_specs::convert::FromSpecImpl<PluginError> for ZulaError {
    open spec fn obeys_from_spec() -> bool {
        true
    }

    open spec fn from_spec(value: PluginError) -> ZulaError {
        ZulaError::Opaque(value)
    }
}

} // verus!
