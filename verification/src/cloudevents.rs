use vstd::prelude::*;

use crate::config::HandlerConfig;
use crate::envelope::{extract_message, extracted_message, reply_event, Event, HandlerError, Payload};
use crate::json::{json_str_fields, singleton_str_field};

verus! {

/// The echo handler: extracts the `message` field of the inbound payload,
/// with the configured name as the default, and answers with a fresh
/// envelope whose payload is `{"message": <extracted>}` under the fixed
/// `func://handler` source and `func.echo` type. Fails exactly when a
/// present payload does not parse as JSON.
pub fn handle(event: Event, config: &HandlerConfig) -> (r: Result<Event, HandlerError>)
    ensures
        r is Ok <==> extracted_message(event.payload, "message"@, config.name@) is Some,
        r matches Ok(out) ==> {
            &&& out.id@ == event.id@
            &&& out.source@ == "func://handler"@
            &&& out.ty@ == "func.echo"@
            &&& out.specversion@ == "1.0"@
            &&& out.datacontenttype matches Some(c) && c@ == "application/json"@
            &&& out.payload matches Payload::Json(v) && json_str_fields(v)
                == singleton_str_field(
                "message"@,
                extracted_message(event.payload, "message"@, config.name@).unwrap(),
            )
        },
        r matches Err(e) ==> e == HandlerError::MalformedPayload,
{
    let message = match extract_message(&event.payload, "message", config.name.as_str()) {
        Ok(m) => m,
        Err(e) => {
            return Err(e);
        },
    };
    Ok(reply_event(event, "func://handler", "func.echo", "message", message.as_str()))
}

} // verus!
