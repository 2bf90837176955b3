use vstd::prelude::*;
use crate::cache_error::{with_cause, CacheError, ErrorKind};
use crate::crud_ops::{
    create_table, drop_table, insert_into_db, insert_into_db_if_not_exist, no_rows_text,
    print_all_cache, records, retrieve_message, select_all_from_cache, select_from_db, table_lines,
    texts, CacheData,
};
use crate::map_data::{decode_message, encode_message, json_to_obj, obj_to_json};
use crate::record::{content_of, has_name, inserted_if_absent, upserted, Record};
use crate::storage::{file_path, open_failure_message, Storage};
use crate::table::{Table, TableState};

pub mod app_db;
pub mod app_error;
pub mod cache_error;
pub mod crud_ops;
pub mod layout;
pub mod map_data;
pub mod record;
pub mod statement;
pub mod storage;
pub mod table;

verus! {

/// What a read of `key` as the type named `target` fails with: not found
/// where no record has the key, else a payload that could not be read, with
/// the type's name, the key, the payload and some cause in the text.
pub open spec fn read_failure(
    rows: Seq<Record>,
    key: Seq<char>,
    target: Seq<char>,
    kind: ErrorKind,
    text: Seq<char>,
) -> bool {
    if has_name(rows, key) {
        kind == ErrorKind::Decode && exists|cause: Seq<char>|
            text == with_cause(decode_message(target, key, content_of(rows, key)), cause)
    } else {
        kind == ErrorKind::NotFound && text == with_cause(retrieve_message(key), no_rows_text())
    }
}

/// An object cache: values of any type that can be written as JSON, stored
/// under text keys in one table and read back as the type the caller asks
/// for. The cache works on the table that it was opened on, which a host
/// found in the storage that was chosen, and gives it back when it is closed.
#[derive(Debug)]
pub struct Cache {
    storage: Storage,
    table: Table,
}

impl Cache {
    /// The records of the cache, in the order in which their keys first came.
    pub closed spec fn rows(&self) -> Seq<Record> {
        self.table@.rows
    }

    /// The storage that was chosen when the cache was built.
    pub closed spec fn storage_of(&self) -> Storage {
        self.storage
    }

    /// The cache's invariant: its table exists, and no two records share a
    /// key.
    pub closed spec fn wf(&self) -> bool {
        self.table.wf() && self.table@.exists
    }

    /// In a cache that is well formed no two records share a key.
    pub proof fn lemma_keys_are_distinct(&self)
        requires
            self.wf(),
        ensures
            crate::record::distinct_names(self.rows()),
    {
    }

    fn over(storage: Storage, opened: Table) -> (c: Cache)
        requires
            opened.wf(),
        ensures
            c.wf(),
            c.rows() == opened@.rows,
            c.storage_of() == storage,
    {
        let mut table = opened;
        let _ = create_table(&mut table);
        Cache { storage, table }
    }

    /// A cache that is ready for use, on the table that was found in the
    /// storage: memory where `in_memory` is set, else the file
    /// `cache_file_name` with `.db` behind it. The table is created where
    /// it was missing; the records that it held are kept.
    pub fn build(in_memory: bool, cache_file_name: &str, opened: Table) -> (c: Cache)
        requires
            opened.wf(),
        ensures
            c.wf(),
            c.rows() == opened@.rows,
            in_memory ==> c.storage_of() is Memory,
            !in_memory ==> c.storage_of().is_file_at(file_path(cache_file_name@)),
    {
        Self::over(Storage::pick(in_memory, cache_file_name), opened)
    }

    /// A cache that is ready for use, on what opening the storage gave:
    /// memory where no name is given, else the file of that name with `.db`
    /// behind it. Where the storage was opened, the table found in it is
    /// created if it was missing, and the records that it held are kept.
    /// Where it could not be opened, no cache is built: the error is a
    /// failure of the store that names the file and gives the cause.
    pub fn build_simple(cache_file_name: Option<String>, opened: Result<Table, String>) -> (r:
        Result<Cache, CacheError>)
        requires
            opened is Ok ==> opened->Ok_0.wf(),
        ensures
            match opened {
                Ok(table) => r is Ok && r->Ok_0.wf() && r->Ok_0.rows() == table@.rows
                    && match cache_file_name {
                    None => r->Ok_0.storage_of() is Memory,
                    Some(name) => r->Ok_0.storage_of().is_file_at(file_path(name@)),
                },
                Err(cause) => r is Err && r->Err_0.kind_of() == ErrorKind::Backend
                    && r->Err_0.text() == match cache_file_name {
                    None => cause@,
                    Some(name) => with_cause(open_failure_message(file_path(name@)), cause@),
                },
            },
    {
        let storage = Storage::named(&cache_file_name);
        match opened {
            Ok(table) => Ok(Self::over(storage, table)),
            Err(cause) => Err(storage.open_error(cause.as_str())),
        }
    }

    /// Closes the cache and gives back its table, as the cache leaves it,
    /// for the host to keep.
    pub fn into_table(self) -> (table: Table)
        requires
            self.wf(),
        ensures
            table.wf(),
            table@ == (TableState { exists: true, rows: self.rows() }),
    {
        self.table
    }

    /// The storage that was chosen when the cache was built.
    pub fn storage(&self) -> (s: &Storage)
        ensures
            *s == self.storage_of(),
    {
        &self.storage
    }

    /// Stores the payload under the key, in place of any payload that the
    /// key had. Always succeeds.
    pub fn save_content(&mut self, key: &str, content: &str) -> (r: Result<(), CacheError>)
        requires
            old(self).wf(),
        ensures
            final(self).wf(),
            final(self).storage_of() == old(self).storage_of(),
            r is Ok,
            final(self).rows() == upserted(old(self).rows(), key@, content@),
    {
        insert_into_db(&mut self.table, key, content)
    }

    /// Stores the payload under the key where the key has no record yet, and
    /// changes nothing where it has one. Always succeeds; the result does not
    /// tell the two apart.
    pub fn save_content_if_not_exist(&mut self, key: &str, content: &str) -> (r: Result<
        (),
        CacheError,
    >)
        requires
            old(self).wf(),
        ensures
            final(self).wf(),
            final(self).storage_of() == old(self).storage_of(),
            r is Ok,
            final(self).rows() == inserted_if_absent(old(self).rows(), key@, content@),
    {
        insert_into_db_if_not_exist(&mut self.table, key, content)
    }

    /// The payload stored under the key; an error of kind `NotFound` exactly
    /// where the key has no record.
    pub fn get_content(&self, key: &str) -> (r: Result<String, CacheError>)
        requires
            self.wf(),
        ensures
            match r {
                Ok(content) => has_name(self.rows(), key@) && content@ == content_of(
                    self.rows(),
                    key@,
                ),
                Err(e) => !has_name(self.rows(), key@) && e.kind_of() == ErrorKind::NotFound
                    && e.text() == with_cause(retrieve_message(key@), no_rows_text()),
            },
    {
        match select_from_db(&self.table, key) {
            Ok(row) => Ok(row.content),
            Err(e) => Err(e),
        }
    }

    /// Writes the value as JSON and stores it under the key, in place of any
    /// value that the key had; `target` is the name of the value's type, for
    /// the error. Fails only where the value cannot be written, with an error
    /// of kind `Encode`, and then changes nothing.
    pub fn save_obj<T>(&mut self, key: &str, obj: &T, target: &str) -> (r: Result<
        (),
        CacheError,
    >) where
        T: ?Sized + serde::Serialize + serde::de::DeserializeOwned + std::fmt::Debug,

        requires
            old(self).wf(),
        ensures
            final(self).wf(),
            final(self).storage_of() == old(self).storage_of(),
            match r {
                Ok(_) => exists|payload: Seq<char>|
                    final(self).rows() == upserted(old(self).rows(), key@, payload),
                Err(e) => final(self).rows() == old(self).rows() && e.kind_of()
                    == ErrorKind::Encode && exists|shown: Seq<char>, cause: Seq<char>|
                    e.text() == with_cause(encode_message(target@, shown), cause),
            },
    {
        match obj_to_json(obj, target) {
            Ok(content) => self.save_content(key, content.as_str()),
            Err(e) => Err(e),
        }
    }

    /// Writes the value as JSON and stores it under the key where the key has
    /// no record yet; where it has one, nothing changes and the call still
    /// succeeds; `target` is the name of the value's type, for the error.
    /// Fails only where the value cannot be written, with an error of kind
    /// `Encode`, and then changes nothing.
    pub fn save_obj_if_not_exist<T>(&mut self, key: &str, obj: &T, target: &str) -> (r: Result<
        (),
        CacheError,
    >) where T: ?Sized + serde::Serialize + serde::de::DeserializeOwned + std::fmt::Debug
        requires
            old(self).wf(),
        ensures
            final(self).wf(),
            final(self).storage_of() == old(self).storage_of(),
            match r {
                Ok(_) => exists|payload: Seq<char>|
                    final(self).rows() == inserted_if_absent(old(self).rows(), key@, payload),
                Err(e) => final(self).rows() == old(self).rows() && e.kind_of()
                    == ErrorKind::Encode && exists|shown: Seq<char>, cause: Seq<char>|
                    e.text() == with_cause(encode_message(target@, shown), cause),
            },
    {
        match obj_to_json(obj, target) {
            Ok(content) => self.save_content_if_not_exist(key, content.as_str()),
            Err(e) => Err(e),
        }
    }

    /// Reads the value stored under the key as a `T`; `target` is the name
    /// of that type, for the error. Where the key has no record the error is
    /// of kind `NotFound`; where the payload cannot be read as a `T` it is of
    /// kind `Decode` and holds the type's name, the key and the payload.
    pub fn get_obj<T>(&self, key: &str, target: &str) -> (r: Result<T, CacheError>) where
        T: ?Sized + serde::Serialize + serde::de::DeserializeOwned + std::fmt::Debug,

        requires
            self.wf(),
        ensures
            !has_name(self.rows(), key@) ==> r is Err,
            r is Err ==> read_failure(
                self.rows(),
                key@,
                target@,
                r->Err_0.kind_of(),
                r->Err_0.text(),
            ),
    {
        match select_from_db(&self.table, key) {
            Ok(row) => json_to_obj::<T>(key, row.content.as_str(), target),
            Err(e) => Err(e),
        }
    }

    /// Every record of the cache as it is stored, key and payload, in the
    /// order in which the keys first came. Always succeeds.
    pub fn get_all_objs(&self) -> (r: Result<Vec<CacheData>, CacheError>)
        requires
            self.wf(),
        ensures
            r is Ok,
            records(r->Ok_0@) == self.rows(),
    {
        select_all_from_cache(&self.table)
    }

    /// The records of the cache as the lines of a two-column listing.
    pub fn pretty_print_all_cache(&self) -> (lines: Vec<String>)
        requires
            self.wf(),
        ensures
            texts(lines@) == table_lines(self.rows()),
    {
        match self.get_all_objs() {
            Ok(list) => print_all_cache(&list),
            Err(_) => Vec::new(),
        }
    }

    /// Erases every record: drops the table and creates it again, so that
    /// the cache is empty and ready for use.
    pub fn clear_cache(&mut self)
        requires
            old(self).wf(),
        ensures
            final(self).wf(),
            final(self).storage_of() == old(self).storage_of(),
            final(self).rows() == Seq::<Record>::empty(),
    {
        let _ = drop_table(&mut self.table);
        let _ = create_table(&mut self.table);
    }
}

} // verus!
