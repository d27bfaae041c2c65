use vstd::prelude::*;

use crate::envelope::{extract_message, extracted_message, reply_event, Event, HandlerError, Payload};
use crate::json::{json_str_fields, singleton_str_field};

verus! {

/// The hello handler: extracts the `name` field of the inbound payload,
/// with `world` as the default, and answers with a fresh envelope whose
/// payload is `{"hello": <extracted>}` under the fixed `func://handler`
/// source and `func.example` type. Fails exactly when a present payload
/// does not parse as JSON.
pub fn handle(event: Event) -> (r: Result<Event, HandlerError>)
    ensures
        r is Ok <==> extracted_message(event.payload, "name"@, "world"@) is Some,
        r matches Ok(out) ==> {
            &&& out.id@ == event.id@
            &&& out.source@ == "func://handler"@
            &&& out.ty@ == "func.example"@
            &&& out.specversion@ == "1.0"@
            &&& out.datacontenttype matches Some(c) && c@ == "application/json"@
            &&& out.payload matches Payload::Json(v) && json_str_fields(v)
                == singleton_str_field(
                "hello"@,
                extracted_message(event.payload, "name"@, "world"@).unwrap(),
            )
        },
        r matches Err(e) ==> e == HandlerError::MalformedPayload,
{
    let message = match extract_message(&event.payload, "name", "world") {
        Ok(m) => m,
        Err(e) => {
            return Err(e);
        },
    };
    Ok(reply_event(event, "func://handler", "func.example", "hello", message.as_str()))
}

} // verus!
