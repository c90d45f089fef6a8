//! Errors of the sandbox.

use vstd::prelude::*;

verus! {

/// Why something was refused or failed.
#[derive(Debug, PartialEq, Eq)]
pub enum Error {
    /// An input breaks a rule.
    Validation(String),
    /// A process could not be launched or waited for.
    Process(String),
    /// A resource limit could not be read or set.
    Rlimit(String),
    /// A system call filter could not be built or installed.
    Seccomp(String),
    /// The file system refused an operation.
    Io(String),
}

/// What an [`Error`] says, over the characters of its message.
pub enum ErrorView {
    Validation(Seq<char>),
    Process(Seq<char>),
    Rlimit(Seq<char>),
    Seccomp(Seq<char>),
    Io(Seq<char>),
}

impl View for Error {
    type V = ErrorView;

    open spec fn view(&self) -> ErrorView {
        match self {
            Error::Validation(text) => ErrorView::Validation(text@),
            Error::Process(text) => ErrorView::Process(text@),
            Error::Rlimit(text) => ErrorView::Rlimit(text@),
            Error::Seccomp(text) => ErrorView::Seccomp(text@),
            Error::Io(text) => ErrorView::Io(text@),
        }
    }
}

impl ErrorView {
    /// The message alone.
    pub open spec fn text(self) -> Seq<char> {
        match self {
            ErrorView::Validation(text) => text,
            ErrorView::Process(text) => text,
            ErrorView::Rlimit(text) => text,
            ErrorView::Seccomp(text) => text,
            ErrorView::Io(text) => text,
        }
    }
}

impl Error {
    /// The message of the error.
    pub fn message(&self) -> (text: &str)
        ensures
            text@ == self@.text(),
    {
        match self {
            Error::Validation(text) => text.as_str(),
            Error::Process(text) => text.as_str(),
            Error::Rlimit(text) => text.as_str(),
            Error::Seccomp(text) => text.as_str(),
            Error::Io(text) => text.as_str(),
        }
    }
}

/// The message of an error is all of its text, whatever it is an error of.
pub proof fn law_messages(text: Seq<char>)
    ensures
        ErrorView::Validation(text).text() == text,
        ErrorView::Process(text).text() == text,
        ErrorView::Rlimit(text).text() == text,
        ErrorView::Seccomp(text).text() == text,
        ErrorView::Io(text).text() == text,
{
}

/// What an error says is what it is an error of, and its message.
pub proof fn law_error_views(text: String)
    ensures
        Error::Validation(text)@ == ErrorView::Validation(text@),
        Error::Process(text)@ == ErrorView::Process(text@),
        Error::Rlimit(text)@ == ErrorView::Rlimit(text@),
        Error::Seccomp(text)@ == ErrorView::Seccomp(text@),
        Error::Io(text)@ == ErrorView::Io(text@),
{
}

} // verus!
