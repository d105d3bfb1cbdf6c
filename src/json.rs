use vstd::prelude::*;

verus! {

/// Whether the bytes are one well-formed JSON document, as serde_json reads it.
pub uninterp spec fn json_parses(doc: Seq<u8>) -> bool;

/// The string held under `key` when the bytes are a JSON object whose member
/// `key` is a string; `None` otherwise.
pub uninterp spec fn json_str_field(doc: Seq<u8>, key: Seq<char>) -> Option<Seq<char>>;

/// Relies on serde_json::from_slice: it succeeds exactly on well-formed JSON.
#[verifier::external_body]
pub(crate) fn parses_as_json(doc: &[u8]) -> (r: bool)
    ensures
        r == json_parses(doc@),
{
    serde_json::from_slice::<serde_json::Value>(doc).is_ok()
}

/// Relies on serde_json::from_slice, Value::get and Value::as_str: the string
/// member `key` of the object that the bytes encode.
#[verifier::external_body]
pub(crate) fn str_field(doc: &[u8], key: &str) -> (r: Option<String>)
    ensures
        r is Some <==> json_str_field(doc@, key@) is Some,
        r is Some ==> r->0@ == json_str_field(doc@, key@)->0,
{
    let value = serde_json::from_slice::<serde_json::Value>(doc).ok()?;
    value.get(key).and_then(|v| v.as_str()).map(|s| s.to_string())
}

} // verus!
