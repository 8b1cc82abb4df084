//! The error kinds shared by the query client and the interface.

use vstd::prelude::*;
use vstd::string::StringExecFns;

verus! {

/// Everything that can go wrong, by kind.
#[derive(Debug, Clone, PartialEq, Eq)]
pub enum Error {
    /// The endpoint could not be reached or answered with a failure status.
    /// Carries the transport's message.
    Transport(String),
    /// The payload is malformed. Carries the name of the column or member
    /// that could not be decoded; empty when no single one is at fault.
    Decode(String),
    /// The payload matches none of the known response shapes, or more than one.
    SchemaMismatch,
    /// No API key is configured.
    CredentialMissing,
    /// The terminal could not be set up, drawn to, or released.
    /// Carries the terminal's message.
    Terminal(String),
}

/// Mathematical model of an [`Error`].
pub ghost enum ErrorView {
    Transport(Seq<char>),
    Decode(Seq<char>),
    SchemaMismatch,
    CredentialMissing,
    Terminal(Seq<char>),
}

impl View for Error {
    type V = ErrorView;

    open spec fn view(&self) -> ErrorView {
        match self {
            Error::Transport(message) => ErrorView::Transport(message@),
            Error::Decode(column) => ErrorView::Decode(column@),
            Error::SchemaMismatch => ErrorView::SchemaMismatch,
            Error::CredentialMissing => ErrorView::CredentialMissing,
            Error::Terminal(message) => ErrorView::Terminal(message@),
        }
    }
}

impl ErrorView {
    /// The name under which the kind is reported.
    pub open spec fn kind(self) -> Seq<char> {
        match self {
            ErrorView::Transport(_) => "TransportError"@,
            ErrorView::Decode(_) => "DecodeError"@,
            ErrorView::SchemaMismatch => "SchemaMismatchError"@,
            ErrorView::CredentialMissing => "CredentialMissingError"@,
            ErrorView::Terminal(_) => "TerminalError"@,
        }
    }

    /// The text the error carries, empty for the kinds that carry none.
    pub open spec fn detail(self) -> Seq<char> {
        match self {
            ErrorView::Transport(message) => message,
            ErrorView::Decode(column) => column,
            ErrorView::SchemaMismatch => Seq::empty(),
            ErrorView::CredentialMissing => Seq::empty(),
            ErrorView::Terminal(message) => message,
        }
    }

    /// The diagnostic line: the kind, then a colon, a space and the detail.
    pub open spec fn diagnostic(self) -> Seq<char> {
        self.kind() + ": "@ + self.detail()
    }
}

/// The view of a fallible result: the view of whichever side it holds.
pub open spec fn view_result<T: View>(r: Result<T, Error>) -> Result<T::V, ErrorView> {
    match r {
        Ok(value) => Ok(value@),
        Err(error) => Err(error@),
    }
}

impl Error {
    /// The name under which this kind of error is reported.
    pub fn kind(&self) -> (name: &'static str)
        ensures
            name@ == self@.kind(),
    {
        match self {
            Error::Transport(_) => "TransportError",
            Error::Decode(_) => "DecodeError",
            Error::SchemaMismatch => "SchemaMismatchError",
            Error::CredentialMissing => "CredentialMissingError",
            Error::Terminal(_) => "TerminalError",
        }
    }

    /// The diagnostic shown to the user before the process gives up.
    pub fn diagnostic(&self) -> (line: String)
        ensures
            line@ == self@.diagnostic(),
    {
        let mut line = String::from_str(self.kind());
        line.append(": ");
        match self {
            Error::Transport(message) => line.append(message.as_str()),
            Error::Decode(column) => line.append(column.as_str()),
            Error::SchemaMismatch => {},
            Error::CredentialMissing => {},
            Error::Terminal(message) => line.append(message.as_str()),
        }
        line
    }
}

} // verus!
