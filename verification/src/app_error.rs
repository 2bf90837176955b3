use vstd::prelude::*;
use vstd::string::*;
use crate::cache_error::{shown, with_cause, CacheError, ErrorKind};

verus! {

/// An error of the cache as an application sees it: its kind, and a message
/// for a log or a display.
#[derive(Debug)]
pub struct AppError {
    kind: ErrorKind,
    message: String,
}

impl AppError {
    /// The kind of the error.
    pub closed spec fn kind_of(&self) -> ErrorKind {
        self.kind
    }

    /// The message of the error.
    pub closed spec fn text(&self) -> Seq<char> {
        self.message@
    }

    /// A failure of the store with the given message.
    pub fn new(message: &str) -> (e: Self)
        ensures
            e.kind_of() == ErrorKind::Backend,
            e.text() == message@,
    {
        Self { kind: ErrorKind::Backend, message: message.to_owned() }
    }

    /// The same error, kind and message, for an application.
    pub fn from_cache_error(error: CacheError) -> (e: Self)
        ensures
            e.kind_of() == error.kind_of(),
            e.text() == error.text(),
    {
        Self { kind: error.kind(), message: error.message().to_owned() }
    }

    pub fn kind(&self) -> (k: ErrorKind)
        ensures
            k == self.kind_of(),
    {
        self.kind
    }

    pub fn message(&self) -> (m: &str)
        ensures
            m@ == self.text(),
    {
        self.message.as_str()
    }

    /// The error as it is shown to a reader.
    pub fn to_text(&self) -> (s: String)
        ensures
            s@ == shown(self.text()),
    {
        let mut s = String::from_str("** Bang at\n     ");
        s.append(self.message.as_str());
        s
    }
}

/// Turns the error of any result into an `AppError` that keeps the cause.
pub trait MapError<T> {
    fn map_to_app_error(self, message: &str) -> Result<T, AppError>;
}

impl<T, E: std::fmt::Display> MapError<T> for Result<T, E> {
    /// A success passes through. A failure becomes a failure of the store
    /// whose text is the message followed by the cause as it displays.
    fn map_to_app_error(self, message: &str) -> (r: Result<T, AppError>)
        ensures
            match self {
                Ok(data) => r == Ok::<T, AppError>(data),
                Err(e) => r is Err && r->Err_0.kind_of() == ErrorKind::Backend && exists|
                    cause: String,
                |
                    to_string_from_display_ensures::<E>(&e, cause) && r->Err_0.text()
                        == with_cause(message@, cause@),
            },
    {
        match self {
            Ok(data) => Ok(data),
            Err(e) => {
                let cause = e.to_string();
                let mut text = String::from_str(message);
                text.append("\n      ");
                text.append(cause.as_str());
                Err(AppError { kind: ErrorKind::Backend, message: text })
            },
        }
    }
}

} // verus!
