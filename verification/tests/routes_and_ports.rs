use func_templates::config::{configured_port, parse_port, HandlerConfig};
use func_templates::http::{event_route, http_route, EventRoute, Method};

fn config() -> HandlerConfig {
    HandlerConfig::default()
}

#[test]
fn health_probes_answer_ok() {
    for path in ["/health/readiness", "/health/liveness"] {
        let resp = http_route(Method::Get, path, "", &config());
        assert_eq!(resp.status, 200);
        assert_eq!("", resp.body);
        assert_eq!(EventRoute::Status(200), event_route(Method::Get, path));
    }
}

#[test]
fn root_route_dispatches_by_method() {
    let resp = http_route(Method::Get, "/", "", &config());
    assert_eq!(resp.status, 200);
    assert_eq!("Hello world!\n", resp.body);
    let resp = http_route(Method::Get, "/", "a=b", &config());
    assert_eq!("a=b", resp.body);
    let resp = http_route(Method::Post, "/", "", &config());
    assert_eq!("Thanks world!\n", resp.body);
    let resp = http_route(Method::Other, "/", "", &config());
    assert_eq!(resp.status, 405);
}

#[test]
fn unknown_paths_are_not_found() {
    let resp = http_route(Method::Get, "/nope", "", &config());
    assert_eq!(resp.status, 404);
    assert_eq!(EventRoute::Status(404), event_route(Method::Get, "/nope"));
    assert_eq!(EventRoute::Status(404), event_route(Method::Post, "/health/readiness"));
}

#[test]
fn event_root_accepts_only_post() {
    assert_eq!(EventRoute::Handler, event_route(Method::Post, "/"));
    assert_eq!(EventRoute::Status(405), event_route(Method::Get, "/"));
    assert_eq!(EventRoute::Status(405), event_route(Method::Other, "/"));
}

#[test]
fn ports_parse_exactly() {
    assert_eq!(Some(8080), parse_port(b"8080"));
    assert_eq!(Some(65535), parse_port(b"65535"));
    assert_eq!(Some(70), parse_port(b"0070"));
    assert_eq!(Some(0), parse_port(b"0"));
    assert_eq!(None, parse_port(b"65536"));
    assert_eq!(None, parse_port(b""));
    assert_eq!(None, parse_port(b"80a0"));
    assert_eq!(None, parse_port(b"-1"));
}

#[test]
fn port_defaults_when_absent() {
    assert_eq!(Some(8080), configured_port(None));
    assert_eq!(Some(9000), configured_port(Some(b"9000")));
    assert_eq!(None, configured_port(Some(b"no port")));
}
