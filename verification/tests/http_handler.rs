use func_templates::config::HandlerConfig;
use func_templates::http::{index, Method};

fn config() -> HandlerConfig {
    HandlerConfig::default()
}

#[test]
fn get() {
    let resp = index(Method::Get, "", &config());
    assert_eq!(resp.status, 200);
    assert_eq!(format!("Hello {}!\n", "world"), resp.body);
}

#[test]
fn get_with_query() {
    let resp = index(Method::Get, "test=param&message=hello", &config());
    assert_eq!(resp.status, 200);
    assert_eq!("test=param&message=hello", resp.body);
}

#[test]
fn post() {
    let resp = index(Method::Post, "", &config());
    assert_eq!(resp.status, 200);
    assert_eq!(format!("Thanks {}!\n", "world"), resp.body);
}
