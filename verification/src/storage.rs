use vstd::prelude::*;
use vstd::string::*;
use crate::cache_error::{with_cause, CacheError, ErrorKind};

verus! {

/// Where a cache keeps its table: in memory, gone with the cache, or in a
/// file that outlives the process.
#[derive(Debug)]
pub enum Storage {
    Memory,
    File { path: String },
}

/// The file of a cache with the given name.
pub open spec fn file_path(name: Seq<char>) -> Seq<char> {
    name + ".db"@
}

/// The address under which a store opens the file.
pub open spec fn file_url(path: Seq<char>) -> Seq<char> {
    "sqlite://"@ + path
}

/// The address of a store in memory.
pub open spec fn memory_url() -> Seq<char> {
    "sqlite::memory:"@
}

/// The message of a file that could not be created or opened.
pub open spec fn open_failure_message(path: Seq<char>) -> Seq<char> {
    "Couldn't create or open file: "@ + path
}

impl Storage {
    /// The address of the storage.
    pub open spec fn url_of(&self) -> Seq<char> {
        match self {
            Storage::Memory => memory_url(),
            Storage::File { path } => file_url(path@),
        }
    }

    /// The storage is the file at `path`.
    pub open spec fn is_file_at(&self, path: Seq<char>) -> bool {
        match self {
            Storage::Memory => false,
            Storage::File { path: own } => own@ == path,
        }
    }

    /// The text of the error for a storage that could not be opened: for a
    /// file, the message of the file followed by the cause; for memory, which
    /// has no file to name, the cause alone.
    pub open spec fn open_failure_text(&self, cause: Seq<char>) -> Seq<char> {
        match self {
            Storage::Memory => cause,
            Storage::File { path } => with_cause(open_failure_message(path@), cause),
        }
    }

    /// The storage in the file of the given cache name.
    pub fn in_file(cache_file_name: &str) -> (s: Storage)
        ensures
            s.is_file_at(file_path(cache_file_name@)),
    {
        let mut path = String::from_str(cache_file_name);
        path.append(".db");
        Storage::File { path }
    }

    /// Memory where `in_memory` is set, else the file of the given name.
    pub fn pick(in_memory: bool, cache_file_name: &str) -> (s: Storage)
        ensures
            in_memory ==> s is Memory,
            !in_memory ==> s.is_file_at(file_path(cache_file_name@)),
    {
        if in_memory {
            Storage::Memory
        } else {
            Self::in_file(cache_file_name)
        }
    }

    /// Memory where no name is given, else the file of the name.
    pub fn named(cache_file_name: &Option<String>) -> (s: Storage)
        ensures
            match cache_file_name {
                None => s is Memory,
                Some(name) => s.is_file_at(file_path(name@)),
            },
    {
        match cache_file_name {
            None => Storage::Memory,
            Some(name) => Self::in_file(name.as_str()),
        }
    }

    /// The address under which a store opens this storage.
    pub fn url(&self) -> (u: String)
        ensures
            u@ == self.url_of(),
    {
        match self {
            Storage::Memory => String::from_str("sqlite::memory:"),
            Storage::File { path } => {
                let mut u = String::from_str("sqlite://");
                u.append(path.as_str());
                u
            },
        }
    }

    /// The message with which a host reports that it could not create or
    /// open the file; `None` for memory, which has no file.
    pub fn open_failure(&self) -> (m: Option<String>)
        ensures
            match self {
                Storage::Memory => m is None,
                Storage::File { path } => m is Some && m->Some_0@ == open_failure_message(path@),
            },
    {
        match self {
            Storage::Memory => None,
            Storage::File { path } => {
                let mut m = String::from_str("Couldn't create or open file: ");
                m.append(path.as_str());
                Some(m)
            },
        }
    }
}

impl Storage {
    /// The error for this storage where it could not be opened: a failure of
    /// the store whose text names the file, if there is one, and the cause.
    pub fn open_error(&self, cause: &str) -> (e: CacheError)
        ensures
            e.kind_of() == ErrorKind::Backend,
            e.text() == self.open_failure_text(cause@),
    {
        match self.open_failure() {
            Some(message) => CacheError::caused(ErrorKind::Backend, message.as_str(), cause),
            None => CacheError::new(cause),
        }
    }
}

} // verus!
