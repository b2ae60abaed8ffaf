[package]
name = "web_api"
version = "0.1.0"
edition = "2021"
publish = false

[dependencies]
iron = "0.6"
bodyparser = "0.8"
persistent = "0.4"
iron-json-response = "*"
serde = "1"
serde_derive = "1"
serde_json = "1"
validator = "0.8"
diesel = { version = "1.3", features = ["postgres", "r2d2"] }
r2d2_redis = "0.8"
slog = "2"
slog-json = "2"
slog-term = "2"
time = "0.1"
