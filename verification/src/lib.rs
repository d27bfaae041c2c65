//! Verified core of a set of serverless function templates served over
//! HTTP: a plain request/response handler, two event-envelope handlers that
//! echo a field of a JSON payload, the routing of both template families,
//! and the startup configuration. JSON parsing is delegated to serde_json
//! behind trusted wrappers; everything else is proved.

pub mod cloudevents;
pub mod config;
pub mod envelope;
pub mod events;
pub mod http;
pub mod json;
