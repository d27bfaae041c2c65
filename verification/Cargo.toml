[package]
name = "func_templates"
version = "0.1.0"
edition = "2021"
publish = false

[dependencies]
serde_json = "1"
actix-web = "4"
log = "0.4"
env_logger = "*"
cloudevents-sdk = { version = "*", features = ["actix"] }
