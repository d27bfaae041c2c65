use vstd::prelude::*;

use crate::config::HandlerConfig;
use vstd::string::StringExecFns;

verus! {

/// The request methods the templates distinguish: `GET`, `POST`, and
/// everything else, which the routing answers with `405 Method Not Allowed`.
#[derive(Clone, Copy, PartialEq, Eq, Structural, Debug)]
pub enum Method {
    Get,
    Post,
    Other,
}

/// A plain response: a status code and a text body.
#[derive(Debug)]
pub struct Reply {
    pub status: u16,
    pub body: String,
}

/// The greeting returned for a `GET` without a query string.
pub open spec fn greeting_body(name: Seq<char>) -> Seq<char> {
    "Hello "@ + name + "!\n"@
}

/// The acknowledgement returned for any method other than `GET`.
pub open spec fn thanks_body(name: Seq<char>) -> Seq<char> {
    "Thanks "@ + name + "!\n"@
}

/// The body the request handler answers with: a `GET` echoes a non-empty
/// query string and greets the configured name otherwise; any other method
/// thanks the configured name.
pub open spec fn index_body(m: Method, query: Seq<char>, name: Seq<char>) -> Seq<char> {
    if m is Get {
        if query.len() > 0 {
            query
        } else {
            greeting_body(name)
        }
    } else {
        thanks_body(name)
    }
}

/// Concatenates a prefix, a name and a suffix into one body.
fn framed(prefix: &str, name: &str, suffix: &str) -> (r: String)
    ensures
        r@ == prefix@ + name@ + suffix@,
{
    let mut s = prefix.to_owned();
    s.append(name);
    s.append(suffix);
    s
}

/// The request handler of the plain HTTP template. Always succeeds with
/// status 200; the body depends only on the method, the query string and
/// the configured name.
pub fn index(method: Method, query: &str, config: &HandlerConfig) -> (r: Reply)
    ensures
        r.status == 200,
        r.body@ == index_body(method, query@, config.name@),
{
    if method == Method::Get {
        if !query.is_empty() {
            Reply { status: 200, body: query.to_owned() }
        } else {
            Reply { status: 200, body: framed("Hello ", config.name.as_str(), "!\n") }
        }
    } else {
        Reply { status: 200, body: framed("Thanks ", config.name.as_str(), "!\n") }
    }
}

/// Whether a request path names one of the two health probes.
pub open spec fn is_health_path(path: Seq<char>) -> bool {
    path == "/health/readiness"@ || path == "/health/liveness"@
}

/// Whether two strings hold the same characters.
fn str_eq(a: &str, b: &str) -> (r: bool)
    ensures
        r == (a@ == b@),
{
    a.to_owned() == b.to_owned()
}

/// The full routing of the plain HTTP template: status and body for every
/// method and path.
pub open spec fn http_route_spec(m: Method, path: Seq<char>, query: Seq<char>, name: Seq<char>) -> (
    u16,
    Seq<char>,
) {
    if path == "/"@ {
        if m is Other {
            (405u16, Seq::<char>::empty())
        } else {
            (200u16, index_body(m, query, name))
        }
    } else if is_health_path(path) {
        if m is Get {
            (200u16, Seq::<char>::empty())
        } else {
            (404u16, Seq::<char>::empty())
        }
    } else {
        (404u16, Seq::<char>::empty())
    }
}

/// Routes one request of the plain HTTP template: `GET` and `POST` on `/`
/// go to the request handler, any other method there is not allowed, the
/// two health probes always answer 200 with an empty body, and every other
/// path is unknown.
pub fn http_route(method: Method, path: &str, query: &str, config: &HandlerConfig) -> (r: Reply)
    ensures
        r.status == http_route_spec(method, path@, query@, config.name@).0,
        r.body@ == http_route_spec(method, path@, query@, config.name@).1,
{
    if str_eq(path, "/") {
        if method == Method::Other {
            Reply { status: 405, body: String::new() }
        } else {
            index(method, query, config)
        }
    } else if str_eq(path, "/health/readiness") || str_eq(path, "/health/liveness") {
        if method == Method::Get {
            Reply { status: 200, body: String::new() }
        } else {
            Reply { status: 404, body: String::new() }
        }
    } else {
        Reply { status: 404, body: String::new() }
    }
}

/// What the event templates' server does with one request before any
/// payload is read.
#[derive(PartialEq, Eq, Structural, Debug)]
pub enum EventRoute {
    /// Hand the posted envelope to the event handler.
    Handler,
    /// Answer immediately with this status and an empty body.
    Status(u16),
}

/// The routing of the event templates: only `POST /` reaches the handler,
/// the two health probes always answer 200, everything else is refused
/// before any payload is read.
pub open spec fn event_route_spec(m: Method, path: Seq<char>) -> EventRoute {
    if path == "/"@ {
        if m is Post {
            EventRoute::Handler
        } else {
            EventRoute::Status(405u16)
        }
    } else if is_health_path(path) {
        if m is Get {
            EventRoute::Status(200u16)
        } else {
            EventRoute::Status(404u16)
        }
    } else {
        EventRoute::Status(404u16)
    }
}

/// Routes one request of the event templates.
pub fn event_route(method: Method, path: &str) -> (r: EventRoute)
    ensures
        r == event_route_spec(method, path@),
{
    if str_eq(path, "/") {
        if method == Method::Post {
            EventRoute::Handler
        } else {
            EventRoute::Status(405)
        }
    } else if str_eq(path, "/health/readiness") || str_eq(path, "/health/liveness") {
        if method == Method::Get {
            EventRoute::Status(200)
        } else {
            EventRoute::Status(404)
        }
    } else {
        EventRoute::Status(404)
    }
}

/// Law: the two health probes answer 200 with an empty body in both
/// template families, whatever the configured name.
pub proof fn lemma_health_always_ok(path: Seq<char>, query: Seq<char>, name: Seq<char>)
    requires
        is_health_path(path),
    ensures
        http_route_spec(Method::Get, path, query, name) == (200u16, Seq::<char>::empty()),
        event_route_spec(Method::Get, path) == EventRoute::Status(200u16),
{
    reveal_strlit("/");
    reveal_strlit("/health/readiness");
    reveal_strlit("/health/liveness");
    assert("/"@.len() == 1);
    assert("/health/readiness"@.len() == 17);
    assert("/health/liveness"@.len() == 16);
    assert(path != "/"@);
}

} // verus!
