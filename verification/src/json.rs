use vstd::prelude::*;

verus! {

// The handlers delegate all JSON work to serde_json. A parsed document is
// carried as an opaque `serde_json::Value`; the contracts speak of it only
// through `json_str_fields`, the map of its top-level string-valued fields,
// which is all the handlers ever read of a payload.

#[verifier::external_type_specification]
#[verifier::external_body]
pub struct ExValue(serde_json::Value);

#[verifier::external_type_specification]
#[verifier::external_body]
pub struct ExJsonError(serde_json::Error);

/// The top-level fields of `v` whose value is a JSON string, as a map from
/// field name to string contents; empty when `v` is not a JSON object.
pub uninterp spec fn json_str_fields(v: serde_json::Value) -> Map<Seq<char>, Seq<char>>;

/// What `serde_json::from_str` makes of a text: `None` when the text is not
/// valid JSON, otherwise the string-valued top-level fields of the parsed
/// document.
pub uninterp spec fn json_str_fields_of_text(s: Seq<char>) -> Option<Map<Seq<char>, Seq<char>>>;

/// What `serde_json::from_slice` makes of raw bytes: `None` when the bytes
/// are not valid JSON, otherwise the string-valued top-level fields of the
/// parsed document.
pub uninterp spec fn json_str_fields_of_bytes(b: Seq<u8>) -> Option<Map<Seq<char>, Seq<char>>>;

/// Relies on `serde_json::from_str::<Value>`: parsing is a deterministic
/// function of the text, it fails exactly on text that is not valid JSON,
/// and the parsed document's string fields are those of the text.
#[verifier::external_body]
pub(crate) fn parse_json_text(s: &str) -> (r: Result<serde_json::Value, serde_json::Error>)
    ensures
        r is Ok <==> json_str_fields_of_text(s@) is Some,
        r matches Ok(v) ==> json_str_fields_of_text(s@) == Some(json_str_fields(v)),
{
    serde_json::from_str(s)
}

/// Relies on `serde_json::from_slice::<Value>`: parsing is a deterministic
/// function of the bytes, it fails exactly on bytes that are not valid JSON,
/// and the parsed document's string fields are those of the bytes.
#[verifier::external_body]
pub(crate) fn parse_json_bytes(b: &[u8]) -> (r: Result<serde_json::Value, serde_json::Error>)
    ensures
        r is Ok <==> json_str_fields_of_bytes(b@) is Some,
        r matches Ok(v) ==> json_str_fields_of_bytes(b@) == Some(json_str_fields(v)),
{
    serde_json::from_slice(b)
}

/// Relies on `serde_json::Value::get` and `Value::as_str`: `get` looks a key
/// up among the fields of an object (`None` on every other kind of value),
/// and `as_str` gives the contents of a string value and `None` otherwise.
#[verifier::external_body]
pub(crate) fn get_str_field(v: &serde_json::Value, key: &str) -> (r: Option<String>)
    ensures
        r matches Some(s) ==> json_str_fields(*v).contains_key(key@)
            && json_str_fields(*v)[key@] == s@,
        r is None ==> !json_str_fields(*v).contains_key(key@),
{
    match v.get(key) {
        Some(f) => match f.as_str() {
            Some(s) => Some(s.to_owned()),
            None => None,
        },
        None => None,
    }
}

/// The field map of a JSON object `{key: value}` with that one string field.
pub open spec fn singleton_str_field(key: Seq<char>, value: Seq<char>) -> Map<Seq<char>, Seq<char>> {
    Map::empty().insert(key, value)
}

/// Relies on `serde_json::Map::insert` and the `Value` constructors: the
/// built document is an object holding exactly one field, the string `value`
/// under `key`.
#[verifier::external_body]
pub(crate) fn new_str_object(key: &str, value: &str) -> (r: serde_json::Value)
    ensures
        json_str_fields(r) == singleton_str_field(key@, value@),
{
    let mut m = serde_json::Map::new();
    m.insert(key.to_owned(), serde_json::Value::String(value.to_owned()));
    serde_json::Value::Object(m)
}

} // verus!
