//! Reading JSON documents held as text. Parsing is left to `serde_json`; these items
//! name what it finds and state nothing more of it.
use vstd::prelude::*;

use crate::text::opt_views;

verus! {

broadcast use vstd::string::group_string_axioms;

/// The string that `serde_json` finds at the JSON pointer `pointer` in the document
/// `text`; `None` where the text is not JSON, or holds nothing or no string there.
pub uninterp spec fn json_pointer_string(text: Seq<char>, pointer: Seq<char>) -> Option<Seq<char>>;

/// `serde_json::from_str::<Value>` on `text`, then `Value::pointer` and `Value::as_str`.
/// Which documents parse, and to what, is left to serde_json: the contract only names the
/// result.
#[verifier::external_body]
pub(crate) fn json_str_at(text: &str, pointer: &str) -> (r: Option<String>)
    ensures
        opt_views(r) == json_pointer_string(text@, pointer@),
{
    match serde_json::from_str::<serde_json::Value>(text) {
        Ok(value) => value.pointer(pointer).and_then(|v| v.as_str()).map(|v| v.to_string()),
        Err(_) => None,
    }
}

/// The boolean that `serde_json` finds at the JSON pointer `pointer` in the document
/// `text`; `None` where the text is not JSON, or holds nothing or no boolean there.
pub uninterp spec fn json_pointer_bool(text: Seq<char>, pointer: Seq<char>) -> Option<bool>;

/// `serde_json::from_str::<Value>` on `text`, then `Value::pointer` and
/// `Value::as_bool`. The contract only names the result.
#[verifier::external_body]
pub(crate) fn json_bool_at(text: &str, pointer: &str) -> (r: Option<bool>)
    ensures
        r == json_pointer_bool(text@, pointer@),
{
    match serde_json::from_str::<serde_json::Value>(text) {
        Ok(value) => value.pointer(pointer).and_then(|v| v.as_bool()),
        Err(_) => None,
    }
}

/// Why `serde_json` refuses `text` as a JSON document, as its error displays it; `None`
/// where it accepts it.
pub uninterp spec fn json_syntax_error(text: Seq<char>) -> Option<Seq<char>>;

/// `serde_json::from_str::<Value>` on `text`, keeping only the error's message. Which
/// documents are refused, and with what message, is left to serde_json: the contract only
/// names the result.
#[verifier::external_body]
pub(crate) fn json_error_of(text: &str) -> (r: Option<String>)
    ensures
        opt_views(r) == json_syntax_error(text@),
{
    match serde_json::from_str::<serde_json::Value>(text) {
        Ok(_) => None,
        Err(e) => Some(e.to_string()),
    }
}

/// Whether `serde_json` reads the document `text` as an object with a field named `key`
/// (whatever its value).
pub uninterp spec fn json_field_exists(text: Seq<char>, key: Seq<char>) -> bool;

/// `serde_json::from_str::<Value>` on `text`, then whether `Value::get(key)` finds
/// anything. The contract only names the result.
#[verifier::external_body]
pub(crate) fn json_has_field(text: &str, key: &str) -> (b: bool)
    ensures
        b == json_field_exists(text@, key@),
{
    match serde_json::from_str::<serde_json::Value>(text) {
        Ok(value) => value.get(key).is_some(),
        Err(_) => false,
    }
}

/// The document `text` as `serde_json` writes it back (compact, object keys in order);
/// `None` where the text is not JSON.
pub uninterp spec fn json_compact(text: Seq<char>) -> Option<Seq<char>>;

/// `serde_json::from_str::<Value>` on `text`, then `Value::to_string`. How the value is
/// written is left to serde_json: the contract names the result, and states that it is
/// missing exactly where `from_str` refuses the text.
#[verifier::external_body]
pub(crate) fn json_compact_text(text: &str) -> (r: Option<String>)
    ensures
        opt_views(r) == json_compact(text@),
        r is None <==> json_syntax_error(text@) is Some,
{
    match serde_json::from_str::<serde_json::Value>(text) {
        Ok(value) => Some(value.to_string()),
        Err(_) => None,
    }
}

/// The elements of the array at the top-level field `key` of the document `text`, each
/// as its string where it is one; `None` where the text is not JSON, not an object, or
/// holds no array there.
pub uninterp spec fn json_array_strings(text: Seq<char>, key: Seq<char>) -> Option<Seq<Option<Seq<char>>>>;

/// `serde_json::from_str::<Value>` on `text`, then `Value::get(key)`, `Value::as_array`
/// and `Value::as_str` on each element. The contract only names the result.
#[verifier::external_body]
pub(crate) fn json_array_at(text: &str, key: &str) -> (r: Option<Vec<Option<String>>>)
    ensures
        match r {
            Some(items) => json_array_strings(text@, key@) == Some(
                items@.map_values(|i: Option<String>| opt_views(i)),
            ),
            None => json_array_strings(text@, key@) is None,
        },
{
    match serde_json::from_str::<serde_json::Value>(text) {
        Ok(value) => value
            .get(key)
            .and_then(|field| field.as_array())
            .map(|items| items.iter().map(|item| item.as_str().map(|s| s.to_string())).collect()),
        Err(_) => None,
    }
}

} // verus!
