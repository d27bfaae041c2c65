use func_templates::cloudevents::handle;
use func_templates::config::HandlerConfig;
use func_templates::envelope::{Event, Payload};

fn config() -> HandlerConfig {
    HandlerConfig::default()
}

fn output_field(resp: Result<Event, func_templates::envelope::HandlerError>, key: &str) -> String {
    match resp.unwrap().payload {
        Payload::Json(output) => output[key].as_str().unwrap().to_string(),
        _ => panic!(),
    }
}

#[test]
fn text_payload_is_parsed_and_echoed() {
    let mut input = Event::default();
    input.payload = Payload::Text("{\"message\":\"from-text\"}".to_string());
    assert_eq!("from-text", output_field(handle(input, &config()), "message"));
}

#[test]
fn binary_payload_is_parsed_and_echoed() {
    let mut input = Event::default();
    input.payload = Payload::Binary(b"{\"message\":\"from-bytes\"}".to_vec());
    assert_eq!("from-bytes", output_field(handle(input, &config()), "message"));
}

#[test]
fn binary_payload_that_is_not_json_is_rejected() {
    let mut input = Event::default();
    input.payload = Payload::Binary(b"\xff\xfe not json".to_vec());
    assert!(handle(input, &config()).is_err());
}

#[test]
fn missing_field_falls_back_to_configured_name() {
    let mut input = Event::default();
    input.payload = Payload::Text("{\"other\":\"x\"}".to_string());
    assert_eq!("world", output_field(handle(input, &config()), "message"));
}

#[test]
fn non_string_field_falls_back_to_configured_name() {
    let mut input = Event::default();
    input.payload = Payload::Text("{\"message\":5}".to_string());
    assert_eq!("world", output_field(handle(input, &config()), "message"));
}

#[test]
fn reply_keeps_identity_and_overrides_source_and_type() {
    let mut input = Event::default();
    input.id = "abc-123".to_string();
    let out = handle(input, &config()).unwrap();
    assert_eq!("abc-123", out.id);
    assert_eq!("func://handler", out.source);
    assert_eq!("func.echo", out.ty);
    assert_eq!("1.0", out.specversion);
    assert_eq!(Some("application/json".to_string()), out.datacontenttype);
}

#[test]
fn configured_name_is_used_as_default() {
    let custom = HandlerConfig { name: "bootsy".to_string() };
    assert_eq!("bootsy", output_field(handle(Event::default(), &custom), "message"));
}
