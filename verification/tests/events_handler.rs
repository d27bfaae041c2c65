use func_templates::envelope::{Event, Payload};
use func_templates::events::handle;

#[test]
fn handler_valid_input() {
    let mut input = Event::default();
    input.datacontenttype = Some("application/json".to_string());
    input.payload = Payload::Json(serde_json::from_str("{\"name\":\"bootsy\"}").unwrap());
    let resp = handle(input);
    assert!(resp.is_ok());
    match resp.unwrap().payload {
        Payload::Json(output) => assert_eq!("bootsy", output["hello"]),
        _ => panic!(),
    }
}

#[test]
fn handler_no_input() {
    let resp = handle(Event::default());
    assert!(resp.is_ok());
    match resp.unwrap().payload {
        Payload::Json(output) => assert_eq!("world", output["hello"]),
        _ => panic!(),
    }
}

#[test]
fn handler_invalid_event() {
    let mut input = Event::default();
    input.payload = Payload::Text(String::new());
    let resp = handle(input);
    assert!(resp.is_err());
}
