use vstd::prelude::*;
use crate::app_error::AppError;
use crate::cache_error::{with_cause, ErrorKind};
use crate::map_data::encode_message;
use crate::record::{has_name, inserted_if_absent, upserted, Record};
use crate::table::Table;
use crate::storage::file_path;
use crate::{read_failure, Cache};

verus! {

/// A type whose values are cached under one key that the type itself names.
pub trait DbCache {
    fn get_cache_name() -> String;
}

/// A cache that is ready for use, on the table that was found in the file
/// `name` with `.db` behind it. The table is created where it was missing;
/// the records that it held are kept.
pub fn init_db(name: &str, opened: Table) -> (cache: Cache)
    requires
        opened.wf(),
    ensures
        cache.wf(),
        cache.rows() == opened@.rows,
        cache.storage_of().is_file_at(file_path(name@)),
{
    Cache::build(false, name, opened)
}

/// Erases every record of the cache and leaves it ready for use.
pub fn clear_db(cache: &mut Cache)
    requires
        old(cache).wf(),
    ensures
        final(cache).wf(),
        final(cache).storage_of() == old(cache).storage_of(),
        final(cache).rows() == Seq::<Record>::empty(),
{
    cache.clear_cache()
}

/// Stores the value under the name that its type gives, in place of any
/// value stored there. Fails only where the value cannot be written, with an
/// error of kind `Encode` that names the type, and then changes nothing.
pub fn save<T>(cache: &mut Cache, obj: &T) -> (r: Result<(), AppError>) where
    T: ?Sized + serde::Serialize + serde::de::DeserializeOwned + std::fmt::Debug + DbCache,

    requires
        old(cache).wf(),
    ensures
        final(cache).wf(),
        final(cache).storage_of() == old(cache).storage_of(),
        exists|name: String|
            call_ensures(T::get_cache_name, (), name) && match r {
                Ok(_) => exists|payload: Seq<char>|
                    final(cache).rows() == upserted(old(cache).rows(), name@, payload),
                Err(e) => final(cache).rows() == old(cache).rows() && e.kind_of()
                    == ErrorKind::Encode && exists|shown: Seq<char>, cause: Seq<char>|
                    e.text() == with_cause(encode_message(name@, shown), cause),
            },
{
    let cache_name = T::get_cache_name();
    match cache.save_obj(cache_name.as_str(), obj, cache_name.as_str()) {
        Ok(_) => Ok(()),
        Err(e) => Err(AppError::from_cache_error(e)),
    }
}

/// Stores the value under the name that its type gives where that name has
/// no record yet; where it has one, nothing changes and the call still
/// succeeds. Fails only where the value cannot be written, with an error of
/// kind `Encode` that names the type, and then changes nothing.
pub fn save_if_not_exist<T>(cache: &mut Cache, obj: &T) -> (r: Result<(), AppError>) where
    T: ?Sized + serde::Serialize + serde::de::DeserializeOwned + std::fmt::Debug + DbCache,

    requires
        old(cache).wf(),
    ensures
        final(cache).wf(),
        final(cache).storage_of() == old(cache).storage_of(),
        exists|name: String|
            call_ensures(T::get_cache_name, (), name) && match r {
                Ok(_) => exists|payload: Seq<char>|
                    final(cache).rows() == inserted_if_absent(
                        old(cache).rows(),
                        name@,
                        payload,
                    ),
                Err(e) => final(cache).rows() == old(cache).rows() && e.kind_of()
                    == ErrorKind::Encode && exists|shown: Seq<char>, cause: Seq<char>|
                    e.text() == with_cause(encode_message(name@, shown), cause),
            },
{
    let cache_name = T::get_cache_name();
    match cache.save_obj_if_not_exist(cache_name.as_str(), obj, cache_name.as_str()) {
        Ok(_) => Ok(()),
        Err(e) => Err(AppError::from_cache_error(e)),
    }
}

/// Reads the value stored under the name that the type gives. Where that
/// name has no record the error is of kind `NotFound`; where the payload
/// cannot be read as a `T` it is of kind `Decode` and names the type.
pub fn get<T>(cache: &Cache) -> (r: Result<T, AppError>) where
    T: ?Sized + serde::Serialize + serde::de::DeserializeOwned + std::fmt::Debug + DbCache,

    requires
        cache.wf(),
    ensures
        exists|name: String|
            call_ensures(T::get_cache_name, (), name) && (!has_name(cache.rows(), name@)
                ==> r is Err) && (r is Err ==> read_failure(
                cache.rows(),
                name@,
                name@,
                r->Err_0.kind_of(),
                r->Err_0.text(),
            )),
{
    let cache_name = T::get_cache_name();
    match cache.get_obj::<T>(cache_name.as_str(), cache_name.as_str()) {
        Ok(obj) => Ok(obj),
        Err(e) => Err(AppError::from_cache_error(e)),
    }
}

} // verus!
