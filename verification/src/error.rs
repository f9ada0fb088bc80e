//! What can go wrong, and how a failure is shown to an HTTP client.

use vstd::prelude::*;
use vstd::string::*;

verus! {

/// Failures of the git transport.
#[derive(Debug)]
pub enum GitError {
    /// The repository name holds a path separator, a parent traversal or
    /// an absolute-path prefix.
    InvalidName,
    /// A repository of that name is registered already.
    AlreadyExists,
    /// No repository of that name is registered.
    NotFound,
    /// The repository is registered but switched off.
    Inactive,
    /// The toolchain could not initialise the bare repository; holds what
    /// it wrote to its error stream.
    InitFailed(String),
    /// The refs of the repository could not be read.
    RefEnumerationFailed,
    /// The toolchain process could not be started.
    SpawnFailed,
    /// The toolchain process ended with a non-zero status; holds the status
    /// and what it wrote to its error stream.
    AbnormalExit(i32, String),
    /// A pipe to the toolchain process broke.
    IOFailure,
    /// The toolchain process overran the time that the caller allowed.
    Timeout,
}

/// The mathematical value of a failure: the same cases, with text as
/// sequences of characters.
pub enum ErrorView {
    InvalidName,
    AlreadyExists,
    NotFound,
    Inactive,
    InitFailed(Seq<char>),
    RefEnumerationFailed,
    SpawnFailed,
    AbnormalExit(i32, Seq<char>),
    IOFailure,
    Timeout,
}

impl View for GitError {
    type V = ErrorView;

    open spec fn view(&self) -> ErrorView {
        match *self {
            GitError::InvalidName => ErrorView::InvalidName,
            GitError::AlreadyExists => ErrorView::AlreadyExists,
            GitError::NotFound => ErrorView::NotFound,
            GitError::Inactive => ErrorView::Inactive,
            GitError::InitFailed(stderr) => ErrorView::InitFailed(stderr@),
            GitError::RefEnumerationFailed => ErrorView::RefEnumerationFailed,
            GitError::SpawnFailed => ErrorView::SpawnFailed,
            GitError::AbnormalExit(code, stderr) => ErrorView::AbnormalExit(code, stderr@),
            GitError::IOFailure => ErrorView::IOFailure,
            GitError::Timeout => ErrorView::Timeout,
        }
    }
}

pub const STATUS_OK: u16 = 200;

pub const STATUS_CREATED: u16 = 201;

pub const STATUS_BAD_REQUEST: u16 = 400;

pub const STATUS_UNAUTHORIZED: u16 = 401;

pub const STATUS_FORBIDDEN: u16 = 403;

pub const STATUS_NOT_FOUND: u16 = 404;

pub const STATUS_METHOD_NOT_ALLOWED: u16 = 405;

pub const STATUS_CONFLICT: u16 = 409;

pub const STATUS_INTERNAL: u16 = 500;

impl ErrorView {
    /// The HTTP status that stands for the failure, as long as no byte of
    /// the response has been sent.
    pub open spec fn status(self) -> u16 {
        match self {
            ErrorView::InvalidName => STATUS_BAD_REQUEST,
            ErrorView::AlreadyExists => STATUS_CONFLICT,
            ErrorView::NotFound => STATUS_NOT_FOUND,
            ErrorView::Inactive => STATUS_NOT_FOUND,
            _ => STATUS_INTERNAL,
        }
    }

    /// The failure in words, followed by what the toolchain wrote where
    /// the failure carries it.
    pub open spec fn message(self) -> Seq<char> {
        match self {
            ErrorView::InvalidName => "invalid repository name"@,
            ErrorView::AlreadyExists => "repository already exists"@,
            ErrorView::NotFound => "repository not found"@,
            ErrorView::Inactive => "repository is inactive"@,
            ErrorView::InitFailed(stderr) => "repository initialisation failed: "@ + stderr,
            ErrorView::RefEnumerationFailed => "could not enumerate refs"@,
            ErrorView::SpawnFailed => "could not start the git process"@,
            ErrorView::AbnormalExit(_, stderr) => "git process failed: "@ + stderr,
            ErrorView::IOFailure => "broken pipe to the git process"@,
            ErrorView::Timeout => "git process timed out"@,
        }
    }
}

impl GitError {
    /// Registry and validation failures have a status of their own; every
    /// failure of the toolchain is an internal error.
    pub fn status(&self) -> (code: u16)
        ensures
            code == self@.status(),
    {
        match self {
            GitError::InvalidName => STATUS_BAD_REQUEST,
            GitError::AlreadyExists => STATUS_CONFLICT,
            GitError::NotFound => STATUS_NOT_FOUND,
            GitError::Inactive => STATUS_NOT_FOUND,
            _ => STATUS_INTERNAL,
        }
    }

    /// A line for the log or for an error body.
    pub fn message(&self) -> (text: String)
        ensures
            text@ == self@.message(),
    {
        match self {
            GitError::InvalidName => String::from_str("invalid repository name"),
            GitError::AlreadyExists => String::from_str("repository already exists"),
            GitError::NotFound => String::from_str("repository not found"),
            GitError::Inactive => String::from_str("repository is inactive"),
            GitError::InitFailed(stderr) => {
                String::from_str("repository initialisation failed: ").concat(stderr.as_str())
            },
            GitError::RefEnumerationFailed => String::from_str("could not enumerate refs"),
            GitError::SpawnFailed => String::from_str("could not start the git process"),
            GitError::AbnormalExit(_, stderr) => {
                String::from_str("git process failed: ").concat(stderr.as_str())
            },
            GitError::IOFailure => String::from_str("broken pipe to the git process"),
            GitError::Timeout => String::from_str("git process timed out"),
        }
    }
}

/// Failures of the metadata API.
#[derive(Debug)]
pub enum Error {
    NotFound,
    /// The metadata store failed; holds its message.
    Database(String),
    /// The request body broke a rule; holds the rule's message.
    Validation(String),
    Unauthorized,
    /// The request collides with what the store holds; says with what.
    Conflict(String),
}

/// The mathematical value of a failure of the metadata API.
pub enum ApiErrorView {
    NotFound,
    Database(Seq<char>),
    Validation(Seq<char>),
    Unauthorized,
    Conflict(Seq<char>),
}

impl View for Error {
    type V = ApiErrorView;

    open spec fn view(&self) -> ApiErrorView {
        match *self {
            Error::NotFound => ApiErrorView::NotFound,
            Error::Database(m) => ApiErrorView::Database(m@),
            Error::Validation(m) => ApiErrorView::Validation(m@),
            Error::Unauthorized => ApiErrorView::Unauthorized,
            Error::Conflict(m) => ApiErrorView::Conflict(m@),
        }
    }
}

/// Why a request was turned away before any handler answered it.
#[derive(Debug)]
pub enum Rejection {
    /// No route matched.
    NotFound,
    /// A handler failed.
    Failed(Error),
    /// A route matched the path but not the method.
    MethodNotAllowed,
    /// Anything else.
    Other,
}

/// The body and status of an error response.
#[derive(Debug)]
pub struct ErrorResponse {
    pub code: u16,
    pub message: String,
    pub details: Option<String>,
}

impl Error {
    pub open spec fn spec_message(self) -> Seq<char> {
        match self {
            Error::NotFound => "Not found"@,
            Error::Database(m) => "Database error: "@ + m@,
            Error::Validation(m) => "Validation error: "@ + m@,
            Error::Unauthorized => "Unauthorized"@,
            Error::Conflict(m) => "Conflict: "@ + m@,
        }
    }

    /// The failure in words.
    pub fn message(&self) -> (text: String)
        ensures
            text@ == self.spec_message(),
    {
        match self {
            Error::NotFound => String::from_str("Not found"),
            Error::Database(m) => String::from_str("Database error: ").concat(m.as_str()),
            Error::Validation(m) => String::from_str("Validation error: ").concat(m.as_str()),
            Error::Unauthorized => String::from_str("Unauthorized"),
            Error::Conflict(m) => String::from_str("Conflict: ").concat(m.as_str()),
        }
    }
}

impl Error {
    /// The rejection that a handler answers with when something is
    /// missing.
    pub fn not_found() -> (r: Rejection)
        ensures
            r is NotFound,
    {
        Rejection::NotFound
    }

    /// The rejection that a handler answers with when the store failed.
    /// The client is told no more than that nothing was found.
    pub fn db(err: String) -> (r: Rejection)
        ensures
            r is NotFound,
    {
        Rejection::NotFound
    }

    /// The rejection that a handler answers with when the request broke
    /// a rule. The client is told no more than that nothing was found.
    pub fn validation(err: String) -> (r: Rejection)
        ensures
            r is NotFound,
    {
        Rejection::NotFound
    }
}

impl Rejection {
    pub open spec fn spec_code(self) -> u16 {
        match self {
            Rejection::NotFound => STATUS_NOT_FOUND,
            Rejection::Failed(Error::NotFound) => STATUS_NOT_FOUND,
            Rejection::Failed(Error::Database(_)) => STATUS_INTERNAL,
            Rejection::Failed(Error::Validation(_)) => STATUS_BAD_REQUEST,
            Rejection::Failed(Error::Unauthorized) => STATUS_UNAUTHORIZED,
            Rejection::Failed(Error::Conflict(_)) => STATUS_CONFLICT,
            Rejection::MethodNotAllowed => STATUS_METHOD_NOT_ALLOWED,
            Rejection::Other => STATUS_INTERNAL,
        }
    }

    pub open spec fn spec_title(self) -> Seq<char> {
        match self {
            Rejection::NotFound => "Not Found"@,
            Rejection::Failed(Error::NotFound) => "Not Found"@,
            Rejection::Failed(Error::Database(_)) => "Internal Server Error"@,
            Rejection::Failed(Error::Validation(_)) => "Validation Error"@,
            Rejection::Failed(Error::Unauthorized) => "Unauthorized"@,
            Rejection::Failed(Error::Conflict(_)) => "Conflict"@,
            Rejection::MethodNotAllowed => "Method Not Allowed"@,
            Rejection::Other => "Internal Server Error"@,
        }
    }

    /// Only a broken rule and a collision are explained to the client.
    pub open spec fn spec_details(self) -> Option<Seq<char>> {
        match self {
            Rejection::Failed(Error::Validation(m)) => Some(m@),
            Rejection::Failed(Error::Conflict(m)) => Some(m@),
            _ => None,
        }
    }
}

/// Turns a rejection into the response that the client gets: the status,
/// a title, and for a broken rule or a collision its message. A failure
/// of the store is shown as an internal error without its message.
pub fn handle_rejection(err: &Rejection) -> (r: ErrorResponse)
    ensures
        r.code == err.spec_code(),
        r.message@ == err.spec_title(),
        err.spec_details() matches Some(d) ==> (r.details matches Some(t) && t@ == d),
        err.spec_details() is None ==> r.details is None,
{
    match err {
        Rejection::NotFound => ErrorResponse {
            code: STATUS_NOT_FOUND,
            message: String::from_str("Not Found"),
            details: None,
        },
        Rejection::Failed(Error::NotFound) => ErrorResponse {
            code: STATUS_NOT_FOUND,
            message: String::from_str("Not Found"),
            details: None,
        },
        Rejection::Failed(Error::Database(_)) => ErrorResponse {
            code: STATUS_INTERNAL,
            message: String::from_str("Internal Server Error"),
            details: None,
        },
        Rejection::Failed(Error::Validation(m)) => ErrorResponse {
            code: STATUS_BAD_REQUEST,
            message: String::from_str("Validation Error"),
            details: Some(m.clone()),
        },
        Rejection::Failed(Error::Unauthorized) => ErrorResponse {
            code: STATUS_UNAUTHORIZED,
            message: String::from_str("Unauthorized"),
            details: None,
        },
        Rejection::Failed(Error::Conflict(m)) => ErrorResponse {
            code: STATUS_CONFLICT,
            message: String::from_str("Conflict"),
            details: Some(m.clone()),
        },
        Rejection::MethodNotAllowed => ErrorResponse {
            code: STATUS_METHOD_NOT_ALLOWED,
            message: String::from_str("Method Not Allowed"),
            details: None,
        },
        Rejection::Other => ErrorResponse {
            code: STATUS_INTERNAL,
            message: String::from_str("Internal Server Error"),
            details: None,
        },
    }
}

} // verus!
