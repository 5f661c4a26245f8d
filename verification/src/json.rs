//! The boundary to `serde_json`: JSON text is parsed by that crate, and the
//! rest of the library reads the parsed value through the few accessors
//! declared here. Nothing in this file is proved; every contract restates what
//! the outside function is documented to do.

use vstd::prelude::*;

verus! {

/// A parsed JSON value. Its inside is not visible to the verifier; what it
/// holds is spoken of through [`member_of`], [`items_of`] and [`text_of`].
#[verifier::external_type_specification]
#[verifier::external_body]
pub struct ExJsonValue(serde_json::Value);

/// The error of a failed parse.
#[verifier::external_type_specification]
#[verifier::external_body]
pub struct ExJsonError(serde_json::Error);

/// The value that a text parses to as JSON, `None` where it is not JSON.
pub uninterp spec fn document_of(raw: Seq<char>) -> Option<serde_json::Value>;

/// The member of a JSON object under a key: `None` where the value is no
/// object or the object has no such key.
pub uninterp spec fn member_of(value: serde_json::Value, key: Seq<char>) -> Option<
    serde_json::Value,
>;

/// The elements of a JSON array in order, `None` where the value is no array.
pub uninterp spec fn items_of(value: serde_json::Value) -> Option<Seq<serde_json::Value>>;

/// The characters of a JSON string, `None` where the value is no string.
pub uninterp spec fn text_of(value: serde_json::Value) -> Option<Seq<char>>;

/// The message with which a parse error is displayed.
pub uninterp spec fn message_of(error: serde_json::Error) -> Seq<char>;

/// `serde_json::from_str::<Value>`: parsing depends on the text alone, so the
/// outcome is the named one.
#[verifier::external_body]
pub(crate) fn parse_document(raw: &str) -> (r: Result<serde_json::Value, serde_json::Error>)
    ensures
        r matches Ok(value) ==> document_of(raw@) == Some(value),
        r is Err ==> document_of(raw@) is None,
{
    serde_json::from_str::<serde_json::Value>(raw)
}

/// `Value::get` with a string index: the member under `key` where the value
/// is an object that has it, else `None`.
#[verifier::external_body]
pub(crate) fn member<'a>(value: &'a serde_json::Value, key: &str) -> (r: Option<
    &'a serde_json::Value,
>)
    ensures
        r matches Some(found) ==> member_of(*value, key@) == Some(*found),
        r is None ==> member_of(*value, key@) is None,
{
    value.get(key)
}

/// `Value::as_array`: the vector of an array, `None` for any other value.
#[verifier::external_body]
pub(crate) fn items<'a>(value: &'a serde_json::Value) -> (r: Option<&'a Vec<serde_json::Value>>)
    ensures
        r matches Some(found) ==> items_of(*value) == Some(found@),
        r is None ==> items_of(*value) is None,
{
    value.as_array()
}

/// `Value::as_str`: the text of a string, `None` for any other value.
#[verifier::external_body]
pub(crate) fn text<'a>(value: &'a serde_json::Value) -> (r: Option<&'a str>)
    ensures
        r matches Some(found) ==> text_of(*value) == Some(found@),
        r is None ==> text_of(*value) is None,
{
    value.as_str()
}

/// `Value::clone`: a copy that holds the same JSON.
#[verifier::external_body]
pub(crate) fn duplicate(value: &serde_json::Value) -> (r: serde_json::Value)
    ensures
        r == *value,
{
    value.clone()
}

/// The `Display` text of a `serde_json::Error`, through `to_string`.
#[verifier::external_body]
pub(crate) fn message(error: &serde_json::Error) -> (r: String)
    ensures
        r@ == message_of(*error),
{
    error.to_string()
}

} // verus!
