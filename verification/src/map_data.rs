use vstd::prelude::*;
use vstd::string::*;
use crate::cache_error::{with_cause, CacheError, ErrorKind};

verus! {

/// `serde_json::Error`: the error of a value that could not be written or of
/// a text that could not be read. It is carried through as it is; its text
/// for a reader comes from its `Display`.
#[verifier::external_type_specification]
#[verifier::external_body]
pub struct ExJsonError(serde_json::Error);

/// The message of a value that could not be turned into a payload: it
/// names the value's type and holds the value as it prints for debugging.
pub open spec fn encode_message(target: Seq<char>, shown: Seq<char>) -> Seq<char> {
    "Could not serialize obj of Type: "@ + target + " \n for the obj: "@ + shown
}

/// The message of a payload that could not be read as the type asked for:
/// it names that type and the key, and holds the payload.
pub open spec fn decode_message(target: Seq<char>, key: Seq<char>, json: Seq<char>) -> Seq<
    char,
> {
    "Could not deserialize to Type: "@ + target + " \n for the key: "@ + key
        + " \n for the json: "@ + json
}

/// `serde_json::to_string`: the value as JSON text, or the error with which
/// the value's own `Serialize` or the format refused it. Nothing is claimed
/// of either.
#[verifier::external_body]
fn to_json_text<T>(obj: &T) -> (r: Result<String, serde_json::Error>) where
    T: ?Sized + serde::Serialize,
 {
    serde_json::to_string(obj)
}

/// `serde_json::from_str`: the value that the JSON text stands for as a `T`,
/// or the error with which the text was refused. Nothing is claimed of
/// either.
#[verifier::external_body]
fn from_json_text<T>(json: &str) -> (r: Result<T, serde_json::Error>) where
    T: serde::de::DeserializeOwned,
 {
    serde_json::from_str::<T>(json)
}

/// `std::fmt::Debug` through `format!`: the value as it prints for
/// debugging. Nothing is claimed of the text.
#[verifier::external_body]
fn debug_text<T>(obj: &T) -> (shown: String) where T: ?Sized + std::fmt::Debug {
    format!("{:?}", obj)
}

/// What an encoding came to: the payload, or an error of kind `Encode` that
/// names the type, shows the value and gives the cause.
pub fn finish_encode(target: &str, shown: &str, outcome: Result<String, String>) -> (r: Result<
    String,
    CacheError,
>)
    ensures
        match outcome {
            Ok(json) => r == Ok::<String, CacheError>(json),
            Err(cause) => r is Err && r->Err_0.kind_of() == ErrorKind::Encode
                && r->Err_0.text() == with_cause(encode_message(target@, shown@), cause@),
        },
{
    match outcome {
        Ok(json) => Ok(json),
        Err(cause) => {
            let mut message = String::from_str("Could not serialize obj of Type: ");
            message.append(target);
            message.append(" \n for the obj: ");
            message.append(shown);
            Err(CacheError::caused(ErrorKind::Encode, message.as_str(), cause.as_str()))
        },
    }
}

/// What a decoding came to: the value, or an error of kind `Decode` that
/// names the type and the key, holds the payload and gives the cause.
pub fn finish_decode<T>(
    target: &str,
    cache_name: &str,
    json: &str,
    outcome: Result<T, String>,
) -> (r: Result<T, CacheError>)
    ensures
        match outcome {
            Ok(obj) => r == Ok::<T, CacheError>(obj),
            Err(cause) => r is Err && r->Err_0.kind_of() == ErrorKind::Decode
                && r->Err_0.text() == with_cause(
                decode_message(target@, cache_name@, json@),
                cause@,
            ),
        },
{
    match outcome {
        Ok(obj) => Ok(obj),
        Err(cause) => {
            let mut message = String::from_str("Could not deserialize to Type: ");
            message.append(target);
            message.append(" \n for the key: ");
            message.append(cache_name);
            message.append(" \n for the json: ");
            message.append(json);
            Err(CacheError::caused(ErrorKind::Decode, message.as_str(), cause.as_str()))
        },
    }
}

/// The value as a JSON payload; `target` is the name of the value's type,
/// for the error. Whether a value can be written is for its type to say;
/// where it cannot, the error is of kind `Encode` and its text is the encode
/// message for that type name and the value as it prints, followed by the
/// cause.
pub fn obj_to_json<T>(obj: &T, target: &str) -> (r: Result<String, CacheError>) where
    T: ?Sized + serde::Serialize + std::fmt::Debug,

    ensures
        r is Err ==> r->Err_0.kind_of() == ErrorKind::Encode && exists|
            shown: Seq<char>,
            cause: Seq<char>,
        |
            r->Err_0.text() == with_cause(encode_message(target@, shown), cause),
{
    match to_json_text(obj) {
        Ok(json) => Ok(json),
        Err(e) => {
            let shown = debug_text(obj);
            let cause = e.to_string();
            let r = finish_encode(target, shown.as_str(), Err(cause));
            assert(r->Err_0.text() == with_cause(encode_message(target@, shown@), cause@));
            r
        },
    }
}

/// The value that the payload stored under `cache_name` stands for, read as
/// a `T`; `target` is the name of that type, for the error. Whether a
/// payload can be read is for the type to say; where it cannot, the error is
/// of kind `Decode` and its text is the decode message for that type name,
/// this key and this payload, followed by the cause.
pub fn json_to_obj<T>(cache_name: &str, json: &str, target: &str) -> (r: Result<
    T,
    CacheError,
>) where T: serde::de::DeserializeOwned
    ensures
        r is Err ==> r->Err_0.kind_of() == ErrorKind::Decode && exists|cause: Seq<char>|
            r->Err_0.text() == with_cause(decode_message(target@, cache_name@, json@), cause),
{
    match from_json_text::<T>(json) {
        Ok(obj) => Ok(obj),
        Err(e) => {
            let cause = e.to_string();
            let r = finish_decode::<T>(target, cache_name, json, Err(cause));
            assert(r->Err_0.text() == with_cause(
                decode_message(target@, cache_name@, json@),
                cause@,
            ));
            r
        },
    }
}

} // verus!
