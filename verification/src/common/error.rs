//! The application-wide error.

use vstd::prelude::*;
use vstd::string::StringExecFns;

use crate::text::concat;

verus! {

/// The kinds of application error.
#[derive(Debug, Clone, Copy, PartialEq, Eq, Structural)]
pub enum ErrorKind {
    /// Configuration error.
    Config,
    /// File input or output error.
    Io,
    /// Serialisation or deserialisation error.
    Serialization,
    /// Window management error.
    Window,
    /// Authentication error.
    Auth,
    /// Permission denied.
    Permission,
    /// Resource not found.
    NotFound,
    /// Invalid input.
    InvalidInput,
    /// Unknown error.
    Unknown,
}

impl ErrorKind {
    /// The name of the kind, as it opens an error message.
    pub open spec fn name(self) -> Seq<char> {
        match self {
            ErrorKind::Config => "Config"@,
            ErrorKind::Io => "Io"@,
            ErrorKind::Serialization => "Serialization"@,
            ErrorKind::Window => "Window"@,
            ErrorKind::Auth => "Auth"@,
            ErrorKind::Permission => "Permission"@,
            ErrorKind::NotFound => "NotFound"@,
            ErrorKind::InvalidInput => "InvalidInput"@,
            ErrorKind::Unknown => "Unknown"@,
        }
    }

    /// The name of the kind, as it opens an error message.
    pub fn as_str(&self) -> (name: &'static str)
        ensures
            name@ == self.name(),
    {
        match self {
            ErrorKind::Config => "Config",
            ErrorKind::Io => "Io",
            ErrorKind::Serialization => "Serialization",
            ErrorKind::Window => "Window",
            ErrorKind::Auth => "Auth",
            ErrorKind::Permission => "Permission",
            ErrorKind::NotFound => "NotFound",
            ErrorKind::InvalidInput => "InvalidInput",
            ErrorKind::Unknown => "Unknown",
        }
    }
}

/// An error of the application: its kind, a message, and details if any.
#[derive(Debug, PartialEq, Eq)]
pub struct AppError {
    pub kind: ErrorKind,
    pub message: String,
    pub details: Option<String>,
}

pub struct AppErrorView {
    pub kind: ErrorKind,
    pub message: Seq<char>,
    pub details: Option<Seq<char>>,
}

impl View for AppError {
    type V = AppErrorView;

    open spec fn view(&self) -> AppErrorView {
        AppErrorView {
            kind: self.kind,
            message: self.message@,
            details: match self.details {
                Some(details) => Some(details@),
                None => None,
            },
        }
    }
}

impl AppErrorView {
    /// An error of the kind with the message and without details.
    pub open spec fn plain(kind: ErrorKind, message: Seq<char>) -> AppErrorView {
        AppErrorView { kind, message, details: None }
    }

    /// The error as one line: kind, message, and the details in brackets.
    pub open spec fn rendered(self) -> Seq<char> {
        match self.details {
            Some(details) => self.kind.name() + ": "@ + self.message + " ("@ + details + ")"@,
            None => self.kind.name() + ": "@ + self.message,
        }
    }
}

impl Clone for AppError {
    fn clone(&self) -> (copy: Self)
        ensures
            copy@ == self@,
    {
        AppError {
            kind: self.kind,
            message: self.message.clone(),
            details: match &self.details {
                Some(details) => Some(details.clone()),
                None => None,
            },
        }
    }
}

impl AppError {
    /// An error of the kind with the message and without details.
    pub fn new(kind: ErrorKind, message: &str) -> (error: AppError)
        ensures
            error@ == AppErrorView::plain(kind, message@),
    {
        AppError { kind, message: message.to_string(), details: None }
    }

    /// The same error with the details, which replace any it had.
    pub fn with_details(self, details: &str) -> (error: AppError)
        ensures
            error@ == (AppErrorView { details: Some(details@), ..self@ }),
    {
        let mut error = self;
        error.details = Some(details.to_string());
        error
    }

    /// A configuration error.
    pub fn config(message: &str) -> (error: AppError)
        ensures
            error@ == AppErrorView::plain(ErrorKind::Config, message@),
    {
        Self::new(ErrorKind::Config, message)
    }

    /// An input or output error.
    pub fn io(message: &str) -> (error: AppError)
        ensures
            error@ == AppErrorView::plain(ErrorKind::Io, message@),
    {
        Self::new(ErrorKind::Io, message)
    }

    /// A window management error.
    pub fn window(message: &str) -> (error: AppError)
        ensures
            error@ == AppErrorView::plain(ErrorKind::Window, message@),
    {
        Self::new(ErrorKind::Window, message)
    }

    /// An authentication error.
    pub fn auth(message: &str) -> (error: AppError)
        ensures
            error@ == AppErrorView::plain(ErrorKind::Auth, message@),
    {
        Self::new(ErrorKind::Auth, message)
    }

    /// A resource was not found.
    pub fn not_found(message: &str) -> (error: AppError)
        ensures
            error@ == AppErrorView::plain(ErrorKind::NotFound, message@),
    {
        Self::new(ErrorKind::NotFound, message)
    }

    /// An input was not valid.
    pub fn invalid_input(message: &str) -> (error: AppError)
        ensures
            error@ == AppErrorView::plain(ErrorKind::InvalidInput, message@),
    {
        Self::new(ErrorKind::InvalidInput, message)
    }

    /// The error as one line: kind, message, and the details in brackets.
    pub fn to_string(&self) -> (line: String)
        ensures
            line@ == self@.rendered(),
    {
        let mut line = concat(self.kind.as_str(), ": ");
        line.append(self.message.as_str());
        match &self.details {
            Some(details) => {
                line.append(" (");
                line.append(details.as_str());
                line.append(")");
            },
            None => {},
        }
        line
    }
}

impl vstd::std_specs::convert::FromSpecImpl<AppError> for String {
    open spec fn obeys_from_spec() -> bool {
        false
    }

    open spec fn from_spec(error: AppError) -> String {
        arbitrary()
    }
}

impl From<AppError> for String {
    fn from(error: AppError) -> (line: String)
        ensures
            line@ == error@.rendered(),
    {
        error.to_string()
    }
}

/// The result of an operation of the application.
pub type AppResult<T> = Result<T, AppError>;

/// `std::io::Error`, carried through as it is.
#[verifier::external_type_specification]
#[verifier::external_body]
pub struct ExIoError(std::io::Error);

impl vstd::std_specs::convert::FromSpecImpl<std::io::Error> for AppError {
    open spec fn obeys_from_spec() -> bool {
        false
    }

    open spec fn from_spec(error: std::io::Error) -> AppError {
        arbitrary()
    }
}

impl From<std::io::Error> for AppError {
    /// An input or output error, with the error's own words as its message.
    fn from(error: std::io::Error) -> (converted: AppError)
        ensures
            converted@.kind == ErrorKind::Io,
            converted@.details is None,
            exists|words: String|
                vstd::string::to_string_from_display_ensures::<std::io::Error>(&error, words)
                    && converted@.message == words@,
    {
        let message = error.to_string();
        Self::io(message.as_str())
    }
}

} // verus!
