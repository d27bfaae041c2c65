use vstd::prelude::*;

use crate::json::{
    get_str_field, json_str_fields, json_str_fields_of_bytes, json_str_fields_of_text,
    new_str_object, parse_json_bytes, parse_json_text, singleton_str_field,
};

verus! {

/// The payload of an event envelope: absent, raw text, raw bytes, or an
/// already-parsed JSON document.
pub enum Payload {
    Absent,
    Text(String),
    Binary(Vec<u8>),
    Json(serde_json::Value),
}

/// An event envelope: identity metadata plus a payload. An inbound envelope
/// is built by the hosting process from the wire; a handler never mutates
/// one, it builds a fresh outbound envelope instead.
pub struct Event {
    pub id: String,
    pub source: String,
    pub ty: String,
    pub specversion: String,
    pub datacontenttype: Option<String>,
    pub payload: Payload,
}

/// What a handler can hold against an inbound envelope.
#[derive(PartialEq, Eq, Structural, Debug)]
pub enum HandlerError {
    /// The payload held text or bytes that do not parse as JSON. The hosting
    /// process answers it with a client error response.
    MalformedPayload,
}

impl Default for Event {
    /// An empty envelope: blank identity, current spec version, no payload.
    fn default() -> (e: Event)
        ensures
            e.id@ == Seq::<char>::empty(),
            e.source@ == Seq::<char>::empty(),
            e.ty@ == Seq::<char>::empty(),
            e.specversion@ == "1.0"@,
            e.datacontenttype is None,
            e.payload is Absent,
    {
        Event {
            id: String::new(),
            source: String::new(),
            ty: String::new(),
            specversion: "1.0".to_owned(),
            datacontenttype: None,
            payload: Payload::Absent,
        }
    }
}

/// The top-level string fields a payload parses to: `None` when the payload
/// is absent or malformed, otherwise the field map of its JSON document.
pub open spec fn payload_str_fields(p: Payload) -> Option<Map<Seq<char>, Seq<char>>> {
    match p {
        Payload::Absent => None,
        Payload::Json(v) => Some(json_str_fields(v)),
        Payload::Text(s) => json_str_fields_of_text(s@),
        Payload::Binary(b) => json_str_fields_of_bytes(b@),
    }
}

/// The field under `key` in `m`, or `default` when `m` has no such field.
pub open spec fn str_field_or(
    m: Map<Seq<char>, Seq<char>>,
    key: Seq<char>,
    default: Seq<char>,
) -> Seq<char> {
    if m.contains_key(key) {
        m[key]
    } else {
        default
    }
}

/// The message a handler extracts from payload `p` under field `key`:
/// `default` when the payload is absent or carries no string field `key`,
/// and `None` when the payload does not parse as JSON.
pub open spec fn extracted_message(p: Payload, key: Seq<char>, default: Seq<char>) -> Option<
    Seq<char>,
> {
    match p {
        Payload::Absent => Some(default),
        _ => match payload_str_fields(p) {
            Some(m) => Some(str_field_or(m, key, default)),
            None => None,
        },
    }
}

/// The string field under `key` in the parsed document `v`, or `default`
/// when `v` has no such field.
fn field_or_default(v: &serde_json::Value, key: &str, default: &str) -> (r: String)
    ensures
        r@ == str_field_or(json_str_fields(*v), key@, default@),
{
    match get_str_field(v, key) {
        Some(s) => s,
        None => default.to_owned(),
    }
}

/// Extracts the message of a payload: the string field under `key` of the
/// payload's JSON document, `default` when the payload is absent or has no
/// such field, and an error exactly when text or bytes do not parse as JSON.
pub fn extract_message(payload: &Payload, key: &str, default: &str) -> (r: Result<
    String,
    HandlerError,
>)
    ensures
        r is Ok <==> extracted_message(*payload, key@, default@) is Some,
        r matches Ok(m) ==> extracted_message(*payload, key@, default@) == Some(m@),
        r matches Err(e) ==> e == HandlerError::MalformedPayload,
{
    match payload {
        Payload::Absent => Ok(default.to_owned()),
        Payload::Json(v) => Ok(field_or_default(v, key, default)),
        Payload::Text(s) => match parse_json_text(s.as_str()) {
            Ok(v) => Ok(field_or_default(&v, key, default)),
            Err(_) => Err(HandlerError::MalformedPayload),
        },
        Payload::Binary(b) => match parse_json_bytes(b.as_slice()) {
            Ok(v) => Ok(field_or_default(&v, key, default)),
            Err(_) => Err(HandlerError::MalformedPayload),
        },
    }
}

/// Builds the outbound envelope of a handler: the inbound identity is kept,
/// `source` and `ty` are overridden, and the payload is the JSON object
/// `{out_key: message}`.
pub fn reply_event(event: Event, source: &str, ty: &str, out_key: &str, message: &str) -> (r:
    Event)
    ensures
        r.id@ == event.id@,
        r.source@ == source@,
        r.ty@ == ty@,
        r.specversion@ == "1.0"@,
        r.datacontenttype matches Some(c) && c@ == "application/json"@,
        r.payload matches Payload::Json(v) && json_str_fields(v) == singleton_str_field(
            out_key@,
            message@,
        ),
{
    Event {
        id: event.id,
        source: source.to_owned(),
        ty: ty.to_owned(),
        specversion: "1.0".to_owned(),
        datacontenttype: Some("application/json".to_owned()),
        payload: Payload::Json(new_str_object(out_key, message)),
    }
}

/// Law: a payload whose JSON document carries a string field under `key` is
/// echoed exactly: the extracted message is that field's value, whatever the
/// configured default.
pub proof fn lemma_present_field_echoed(
    p: Payload,
    m: Map<Seq<char>, Seq<char>>,
    key: Seq<char>,
    default: Seq<char>,
)
    requires
        payload_str_fields(p) == Some(m),
        m.contains_key(key),
    ensures
        extracted_message(p, key, default) == Some(m[key]),
{
}

/// Law: an absent payload yields the configured default.
pub proof fn lemma_absent_payload_defaults(key: Seq<char>, default: Seq<char>)
    ensures
        extracted_message(Payload::Absent, key, default) == Some(default),
{
}

/// Law: a payload whose JSON document has no string field under `key`
/// yields the configured default.
pub proof fn lemma_missing_field_defaults(
    p: Payload,
    m: Map<Seq<char>, Seq<char>>,
    key: Seq<char>,
    default: Seq<char>,
)
    requires
        payload_str_fields(p) == Some(m),
        !m.contains_key(key),
    ensures
        extracted_message(p, key, default) == Some(default),
{
}

/// Law: a present payload that does not parse as JSON yields no message at
/// all; the handlers turn this into a client error.
pub proof fn lemma_malformed_payload_rejected(p: Payload, key: Seq<char>, default: Seq<char>)
    requires
        !(p is Absent),
        payload_str_fields(p) is None,
    ensures
        extracted_message(p, key, default) is None,
{
}

} // verus!
