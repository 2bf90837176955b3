use vstd::prelude::*;
use vstd::string::*;

verus! {

/// What went wrong, so that a caller can tell a missing key from a broken
/// payload and from a failing store.
#[derive(Debug, Clone, Copy, PartialEq, Eq, Structural)]
pub enum ErrorKind {
    /// A value could not be turned into a payload.
    Encode,
    /// A stored payload could not be read as the type asked for.
    Decode,
    /// No record is stored under the key.
    NotFound,
    /// The store refused or failed a statement.
    Backend,
}

/// The text of an error that has a cause: the message, a line break, six
/// spaces, the cause.
pub open spec fn with_cause(message: Seq<char>, cause: Seq<char>) -> Seq<char> {
    message + "\n      "@ + cause
}

/// The text under which an error is shown.
pub open spec fn shown(message: Seq<char>) -> Seq<char> {
    "** Bang at\n     "@ + message
}

/// An error of the cache: its kind, and a message for a log or a display.
#[derive(Debug)]
pub struct CacheError {
    kind: ErrorKind,
    message: String,
}

impl CacheError {
    /// The kind of the error.
    pub closed spec fn kind_of(&self) -> ErrorKind {
        self.kind
    }

    /// The message of the error.
    pub closed spec fn text(&self) -> Seq<char> {
        self.message@
    }

    /// A failure of the store with the given message.
    pub fn new(message: &str) -> (e: Self)
        ensures
            e.kind_of() == ErrorKind::Backend,
            e.text() == message@,
    {
        Self { kind: ErrorKind::Backend, message: message.to_owned() }
    }

    /// An error of the given kind with the given message.
    pub fn of_kind(kind: ErrorKind, message: &str) -> (e: Self)
        ensures
            e.kind_of() == kind,
            e.text() == message@,
    {
        Self { kind, message: message.to_owned() }
    }

    /// An error of the given kind whose text names its cause.
    pub fn caused(kind: ErrorKind, message: &str, cause: &str) -> (e: Self)
        ensures
            e.kind_of() == kind,
            e.text() == with_cause(message@, cause@),
    {
        let mut text = String::from_str(message);
        text.append("\n      ");
        text.append(cause);
        Self { kind, message: text }
    }

    pub fn kind(&self) -> (k: ErrorKind)
        ensures
            k == self.kind_of(),
    {
        self.kind
    }

    pub fn message(&self) -> (m: &str)
        ensures
            m@ == self.text(),
    {
        self.message.as_str()
    }

    /// The error as it is shown to a reader.
    pub fn to_text(&self) -> (s: String)
        ensures
            s@ == shown(self.text()),
    {
        let mut s = String::from_str("** Bang at\n     ");
        s.append(self.message.as_str());
        s
    }
}

/// Turns the error of any result into a `CacheError` that keeps the cause.
pub trait MapError<T> {
    fn map_to_cache_error(self, message: &str) -> Result<T, CacheError>;
}

impl<T, E: std::fmt::Display> MapError<T> for Result<T, E> {
    /// A success passes through. A failure becomes a failure of the store
    /// whose text is the message followed by the cause as it displays.
    fn map_to_cache_error(self, message: &str) -> (r: Result<T, CacheError>)
        ensures
            match self {
                Ok(data) => r == Ok::<T, CacheError>(data),
                Err(e) => r is Err && r->Err_0.kind_of() == ErrorKind::Backend && exists|
                    cause: String,
                |
                    to_string_from_display_ensures::<E>(&e, cause) && r->Err_0.text()
                        == with_cause(message@, cause@),
            },
    {
        match self {
            Ok(data) => Ok(data),
            Err(e) => {
                let cause = e.to_string();
                Err(CacheError::caused(ErrorKind::Backend, message, cause.as_str()))
            },
        }
    }
}

} // verus!
