//! The untyped JSON document that objects are decoded from.
//!
//! A document is a `serde_json::Value`. The verifier cannot look inside one, so
//! this module gives a name to each thing that decoding reads from a document
//! or makes of one, and states what the functions of `serde_json` and `std`
//! that decoding calls return in terms of those names. Nothing in this module
//! is proved: the rest of the library is proved from what is stated here.

use serde_json::Value;
use vstd::prelude::*;

verus! {

/// Makes `serde_json::Value` known to the verifier as an opaque type.
#[verifier::external_type_specification]
#[verifier::external_body]
pub struct ExValue(serde_json::Value);

/// The members of a JSON object, each under its key: what `Value::get` finds
/// under a string key and what `Map::remove` takes away. A value that is not
/// an object has no members.
pub uninterp spec fn members(doc: Value) -> Map<Seq<char>, Value>;

/// The member stored under `key`, if there is one.
pub open spec fn member(doc: Value, key: Seq<char>) -> Option<Value> {
    if members(doc).contains_key(key) {
        Some(members(doc)[key])
    } else {
        None
    }
}

/// The characters of a JSON string: what `Value::as_str` returns. `None` for
/// every value that is not a string.
pub uninterp spec fn text(doc: Value) -> Option<Seq<char>>;

/// The elements of a JSON array, in order: what `Value::as_array` returns.
/// `None` for every value that is not an array.
pub uninterp spec fn elements(doc: Value) -> Option<Seq<Value>>;

/// Calls `serde_json::Value::get` with a string key. Trusted: the result is
/// the member that [`members`] holds under `key`, borrowed from `doc`, or
/// `None` if it holds none there.
#[verifier::external_body]
pub(crate) fn get_member<'a>(doc: &'a Value, key: &str) -> (found: Option<&'a Value>)
    ensures
        match found {
            Some(value) => member(*doc, key@) == Some(*value),
            None => member(*doc, key@) is None,
        },
{
    doc.get(key)
}

/// Specifies `serde_json::Value::as_str`. Trusted: the result is the text that
/// [`text`] names.
pub assume_specification<'a>[ serde_json::Value::as_str ](doc: &'a Value) -> (found: Option<&'a str>)
    ensures
        match found {
            Some(chars) => text(*doc) == Some(chars@),
            None => text(*doc) is None,
        },
;

/// Specifies `serde_json::Value::as_array`. Trusted: the result holds the
/// elements that [`elements`] names, in the same order.
pub assume_specification<'a>[ serde_json::Value::as_array ](doc: &'a Value) -> (found: Option<&'a Vec<Value>>)
    ensures
        match found {
            Some(items) => elements(*doc) == Some(items@),
            None => elements(*doc) is None,
        },
;

/// Specifies `Clone::clone` of `serde_json::Value`. Trusted: the copy is the
/// same document.
pub assume_specification[ <serde_json::Value as Clone>::clone ](doc: &Value) -> (copy: Value)
    ensures
        copy == *doc,
;

/// Calls `serde_json::Map::remove` on the object that `doc` holds, if it
/// holds one, and drops what was removed. Trusted: `doc` loses the member
/// under `key`, if it had one, and keeps every other member as it was.
#[verifier::external_body]
pub(crate) fn remove_member(doc: &mut Value, key: &str)
    ensures
        members(*final(doc)) == members(*old(doc)).remove(key@),
{
    match doc {
        Value::Object(map) => {
            map.remove(key);
        },
        _ => {},
    }
}

/// Compares two string slices with `==` of `str`. Trusted: the result says
/// whether they hold the same characters.
#[verifier::external_body]
pub(crate) fn same_text(a: &str, b: &str) -> (same: bool)
    ensures
        same == (a@ == b@),
{
    a == b
}

} // verus!
