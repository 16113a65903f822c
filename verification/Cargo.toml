[package]
name = "sms_request_handler"
version = "0.1.0"
edition = "2021"
publish = false

[dependencies]
hex = "0.4"
sha2 = "0.10"
serde = { version = "1", features = ["derive"] }
serde_json = "1"
axum = "0.7"
dotenvy = "0.15"
futures = "0.3"
tracing = "0.1"
tokio = { version = "1", features = ["macros", "rt-multi-thread", "net"] }
