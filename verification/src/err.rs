//! The error type shared by every operation of the service wrapper.

use vstd::prelude::*;
use vstd::string::*;

verus! {

/// What went wrong, by the collaborator that reported it, with that
/// collaborator's own diagnostic text.
#[derive(Debug, Clone, PartialEq, Eq)]
pub enum Error {
    /// The command line could not be understood.
    ArgParser(String),
    /// The system event log could not be set up.
    EventLog(String),
    /// The configuration backend could not be read.
    Figment(String),
    /// A file or directory operation failed.
    IO(String),
    /// A registry key could not be written.
    Registry(String),
    /// The service supervisor refused a request.
    WindowsService(String),
}

/// The error type of `std::io`, carried through as an opaque value.
#[verifier::external_type_specification]
#[verifier::external_body]
pub struct ExIoError(std::io::Error);

/// The error type of `qargparser`, carried through as an opaque value.
#[verifier::external_type_specification]
#[verifier::external_body]
#[verifier::reject_recursive_types(C)]
pub struct ExErrKind<C>(qargparser::ErrKind<C>);

impl Error {
    /// The diagnostic text carried by the error.
    pub open spec fn detail(self) -> Seq<char> {
        match self {
            Error::ArgParser(s) => s@,
            Error::EventLog(s) => s@,
            Error::Figment(s) => s@,
            Error::IO(s) => s@,
            Error::Registry(s) => s@,
            Error::WindowsService(s) => s@,
        }
    }

    /// The fixed words that introduce the diagnostic text.
    pub open spec fn prefix(self) -> Seq<char> {
        match self {
            Error::ArgParser(_) => "ArgParser error; "@,
            Error::EventLog(_) => "EventLog error; "@,
            Error::Figment(_) => "figment error; "@,
            Error::IO(_) => "I/O error; "@,
            Error::Registry(_) => "registry; "@,
            Error::WindowsService(_) => "windows-service error; "@,
        }
    }

    /// The one-line rendering shown to an operator: prefix, then detail.
    pub open spec fn text(self) -> Seq<char> {
        self.prefix() + self.detail()
    }

    /// Renders the error as one line of text.
    pub fn to_text(&self) -> (out: String)
        ensures
            out@ == self.text(),
    {
        match self {
            Error::ArgParser(s) => String::from_str("ArgParser error; ").concat(s.as_str()),
            Error::EventLog(s) => String::from_str("EventLog error; ").concat(s.as_str()),
            Error::Figment(s) => String::from_str("figment error; ").concat(s.as_str()),
            Error::IO(s) => String::from_str("I/O error; ").concat(s.as_str()),
            Error::Registry(s) => String::from_str("registry; ").concat(s.as_str()),
            Error::WindowsService(s) => String::from_str("windows-service error; ").concat(
                s.as_str(),
            ),
        }
    }
}

impl From<std::io::Error> for Error {
    /// An I/O error whose detail is the rendering of `err`.
    fn from(err: std::io::Error) -> (e: Error)
        ensures
            e matches Error::IO(detail) && to_string_from_display_ensures::<std::io::Error>(
                &err,
                detail,
            ),
    {
        Error::IO(err.to_string())
    }
}

/// The rendering of an outside error is no function that a contract can
/// name, so the conversion follows no spec function: what `from` ensures is
/// all that is known of it.
impl vstd::std_specs::convert::FromSpecImpl<std::io::Error> for Error {
    open spec fn obeys_from_spec() -> bool {
        false
    }

    open spec fn from_spec(err: std::io::Error) -> Error {
        arbitrary()
    }
}

impl<C> From<qargparser::ErrKind<C>> for Error {
    /// A command-line error whose detail is the rendering of `err`.
    fn from(err: qargparser::ErrKind<C>) -> (e: Error)
        ensures
            e matches Error::ArgParser(detail) && to_string_from_display_ensures::<
                qargparser::ErrKind<C>,
            >(&err, detail),
    {
        Error::ArgParser(err.to_string())
    }
}

/// As for `std::io::Error`: the conversion follows no spec function.
impl<C> vstd::std_specs::convert::FromSpecImpl<qargparser::ErrKind<C>> for Error {
    open spec fn obeys_from_spec() -> bool {
        false
    }

    open spec fn from_spec(err: qargparser::ErrKind<C>) -> Error {
        arbitrary()
    }
}

} // verus!
