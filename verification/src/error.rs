//! The failures that a workspace request can end in.

use vstd::prelude::*;

verus! {

/// Why a workspace request failed.
#[derive(Debug)]
pub enum Error {
    /// The request carries no valid session.
    Unauthorized,
    /// A file name is unsafe or malformed.
    InvalidArgument(String),
    /// The file system refused an operation.
    Io(String),
    /// The native watch facility could not be set up.
    Watcher(String),
}

/// An [`Error`] with its texts as sequences of characters.
pub enum ErrorView {
    Unauthorized,
    InvalidArgument(Seq<char>),
    Io(Seq<char>),
    Watcher(Seq<char>),
}

impl View for Error {
    type V = ErrorView;

    open spec fn view(&self) -> ErrorView {
        match self {
            Error::Unauthorized => ErrorView::Unauthorized,
            Error::InvalidArgument(detail) => ErrorView::InvalidArgument(detail@),
            Error::Io(detail) => ErrorView::Io(detail@),
            Error::Watcher(detail) => ErrorView::Watcher(detail@),
        }
    }
}

impl ErrorView {
    /// The HTTP status that the failure is answered with.
    pub open spec fn status_code(self) -> int {
        match self {
            ErrorView::Unauthorized => 401,
            ErrorView::InvalidArgument(_) => 400,
            ErrorView::Io(_) => 500,
            ErrorView::Watcher(_) => 500,
        }
    }

    /// The text that the failure is reported with.
    pub open spec fn message(self) -> Seq<char> {
        match self {
            ErrorView::Unauthorized => "User is not authenticated"@,
            ErrorView::InvalidArgument(detail) => "invalid args: "@ + detail,
            ErrorView::Io(detail) => "io: "@ + detail,
            ErrorView::Watcher(detail) => "watcher: "@ + detail,
        }
    }
}

impl Error {
    /// The HTTP status that the failure is answered with.
    pub fn status_code(&self) -> (code: u16)
        ensures
            code == self@.status_code(),
    {
        match self {
            Error::Unauthorized => 401,
            Error::InvalidArgument(_) => 400,
            Error::Io(_) => 500,
            Error::Watcher(_) => 500,
        }
    }

    /// The text that the failure is reported with.
    pub fn message(&self) -> (text: String)
        ensures
            text@ == self@.message(),
    {
        match self {
            Error::Unauthorized => "User is not authenticated".to_owned(),
            Error::InvalidArgument(detail) => "invalid args: ".to_owned().concat(detail.as_str()),
            Error::Io(detail) => "io: ".to_owned().concat(detail.as_str()),
            Error::Watcher(detail) => "watcher: ".to_owned().concat(detail.as_str()),
        }
    }
}

/// Lets a request through only if its session is authenticated.
pub fn require_session(authenticated: bool) -> (outcome: Result<(), Error>)
    ensures
        outcome is Ok <==> authenticated,
        outcome matches Err(e) ==> e@ == ErrorView::Unauthorized,
{
    if authenticated {
        Ok(())
    } else {
        Err(Error::Unauthorized)
    }
}

} // verus!
